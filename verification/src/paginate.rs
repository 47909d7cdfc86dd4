//! One page of a relation's children, cut from the full list held in
//! memory: sorted by (sort key, tie-breaker), resumed after the request's
//! cursor, and ended with the cursor of its last entry when more follow.
use vstd::prelude::*;

use crate::catalog::CatalogEntry;
use crate::catalog_error::{CatalogIssue, CatalogValidationError};
use crate::cursor::{keyset_encode, keyset_parts_spec, utf8_len, CatalogCursor};
use crate::page::{finalize_keyset_page, page_size_issue, pair_lt, str_less, str_lt, CatalogRequest};
use crate::postgres::{child_sort_key, child_tie_breaker, pg_child_sort_key, pg_child_tie_breaker};
use crate::text::str_eq;

verus! {

/// An entry with its sort key and tie-breaker, by value.
pub type KeyedView = (Seq<char>, Seq<char>, CatalogEntry);

pub open spec fn keyed_view(x: (String, String, CatalogEntry)) -> KeyedView {
    (x.0@, x.1@, x.2)
}

pub open spec fn keyed_views(s: Seq<(String, String, CatalogEntry)>) -> Seq<KeyedView> {
    s.map_values(|x: (String, String, CatalogEntry)| keyed_view(x))
}

pub open spec fn keyed_lt(a: KeyedView, b: KeyedView) -> bool {
    pair_lt((a.0, a.1), (b.0, b.1))
}

/// `s` with `x` placed after every element that does not sort after it.
pub open spec fn insert_by_keys(s: Seq<KeyedView>, x: KeyedView) -> Seq<KeyedView>
    decreases s.len(),
{
    if s.len() == 0 || !keyed_lt(x, s.last()) {
        s.push(x)
    } else {
        insert_by_keys(s.drop_last(), x).push(s.last())
    }
}

/// `s` stably sorted by (sort key, tie-breaker), as `sort_by` orders it.
pub open spec fn sorted_by_keys(s: Seq<KeyedView>) -> Seq<KeyedView>
    decreases s.len(),
{
    if s.len() == 0 {
        Seq::empty()
    } else {
        insert_by_keys(sorted_by_keys(s.drop_last()), s.last())
    }
}

proof fn lemma_insert_keys_at(s: Seq<KeyedView>, x: KeyedView, j: int)
    requires
        0 <= j <= s.len(),
        forall|k: int| j <= k < s.len() ==> keyed_lt(x, #[trigger] s[k]),
        j == 0 || !keyed_lt(x, s[j - 1]),
    ensures
        insert_by_keys(s, x) == s.insert(j, x),
    decreases s.len(),
{
    if j == s.len() {
        assert(s.push(x) =~= s.insert(j, x));
    } else {
        let init = s.drop_last();
        assert forall|k: int| j <= k < init.len() implies keyed_lt(x, #[trigger] init[k]) by {
            assert(init[k] == s[k]);
        }
        if j > 0 {
            assert(init[j - 1] == s[j - 1]);
        }
        assert(keyed_lt(x, s[s.len() - 1]));
        lemma_insert_keys_at(init, x, j);
        assert(init.insert(j, x).push(s.last()) =~= s.insert(j, x));
    }
}

fn keys_less(a: &(String, String, CatalogEntry), b: &(String, String, CatalogEntry)) -> (r: bool)
    ensures
        r == keyed_lt(keyed_view(*a), keyed_view(*b)),
{
    str_less(a.0.as_str(), b.0.as_str()) || (str_eq(a.0.as_str(), b.0.as_str()) && str_less(
        a.1.as_str(),
        b.1.as_str(),
    ))
}

fn sort_by_keys(v: Vec<(String, String, CatalogEntry)>) -> (r: Vec<(String, String, CatalogEntry)>)
    ensures
        keyed_views(r@) == sorted_by_keys(keyed_views(v@)),
{
    let ghost orig = keyed_views(v@);
    let ghost ov = v@;
    let n = v.len();
    let mut rest = v;
    let mut out: Vec<(String, String, CatalogEntry)> = Vec::new();
    let mut consumed: usize = 0;
    while rest.len() > 0
        invariant
            consumed + rest@.len() == ov.len(),
            ov.len() == n,
            orig == keyed_views(ov),
            rest@ == ov.subrange(consumed as int, ov.len() as int),
            keyed_views(out@) == sorted_by_keys(orig.subrange(0, consumed as int)),
        decreases rest@.len(),
    {
        let x = rest.remove(0);
        assert(x == ov[consumed as int]);
        assert(keyed_view(x) == orig[consumed as int]);
        assert(orig.subrange(0, consumed + 1).drop_last() =~= orig.subrange(0, consumed as int));
        let ghost outv = keyed_views(out@);
        let mut j: usize = out.len();
        while j > 0 && keys_less(&x, &out[j - 1])
            invariant
                j <= out@.len(),
                outv == keyed_views(out@),
                forall|k: int| j <= k < out@.len() ==> keyed_lt(keyed_view(x), #[trigger] outv[k]),
            decreases j,
        {
            j = j - 1;
        }
        proof {
            lemma_insert_keys_at(outv, keyed_view(x), j as int);
        }
        out.insert(j, x);
        assert(keyed_views(out@) =~= outv.insert(j as int, keyed_view(x)));
        consumed = consumed + 1;
        assert(rest@ =~= ov.subrange(consumed as int, ov.len() as int));
    }
    assert(orig.subrange(0, consumed as int) =~= orig);
    out
}

/// A relation child with its sort key (kind rank, then ordinal or name) and
/// tie-breaker (kind rank, then native identity).
pub open spec fn child_keyed(e: CatalogEntry) -> KeyedView {
    (pg_child_sort_key(e), pg_child_tie_breaker(e), e)
}

/// The children with their keys, in their order.
pub open spec fn children_keyed(children: Seq<CatalogEntry>) -> Seq<KeyedView> {
    children.map_values(|e: CatalogEntry| child_keyed(e))
}

/// Why a page cannot be cut: the request's cursor does not parse, or the
/// page itself breaks a page rule.
#[derive(Debug)]
pub enum PaginationError {
    InvalidCursor(CatalogValidationError),
    Invariant(CatalogValidationError),
}

pub enum PaginationIssue {
    InvalidCursor(CatalogIssue),
    Invariant(CatalogIssue),
}

/// The children after the cursor, or all of them without one.
pub open spec fn after_cursor(sorted: Seq<KeyedView>, cursor: Option<CatalogCursor>) -> Result<
    Seq<KeyedView>,
    PaginationIssue,
> {
    match cursor {
        None => Ok(sorted),
        Some(c) => match keyset_parts_spec(c@) {
            Err(issue) => Err(PaginationIssue::InvalidCursor(issue)),
            Ok((s, t)) => Ok(sorted.filter(|x: KeyedView| pair_lt((s, t), (x.0, x.1)))),
        },
    }
}

pub open spec fn entries_of(s: Seq<KeyedView>) -> Seq<CatalogEntry> {
    s.map_values(|x: KeyedView| x.2)
}

/// The page of keyed entries that `request` asks for, and the cursor of the
/// next page, if any: sorted by sort key and tie-breaker, resumed after the
/// cursor, cut to one page.
pub open spec fn keyed_page(keyed: Seq<KeyedView>, request: CatalogRequest) -> Result<
    (Seq<CatalogEntry>, Option<Seq<char>>),
    PaginationIssue,
> {
    let sorted = sorted_by_keys(keyed);
    match after_cursor(sorted, request.key.cursor) {
        Err(issue) => Err(issue),
        Ok(rest) => {
            let page_size = request.page_size;
            let cut = if rest.len() > page_size + 1 {
                rest.take(page_size + 1)
            } else {
                rest
            };
            if page_size_issue(page_size) is Some {
                Err(PaginationIssue::Invariant(page_size_issue(page_size)->Some_0))
            } else if cut.len() <= page_size {
                Ok((entries_of(cut), None))
            } else {
                let last = cut[page_size - 1];
                if last.1.len() == 0 {
                    Err(PaginationIssue::Invariant(CatalogIssue::EmptyCursorTieBreaker))
                } else if utf8_len(last.0) + utf8_len(last.1) > usize::MAX {
                    Err(PaginationIssue::Invariant(CatalogIssue::MalformedCursor))
                } else {
                    Ok((entries_of(cut.take(page_size as int)), Some(keyset_encode(last.0, last.1))))
                }
            }
        },
    }
}

/// The page of `children` that `request` asks for, and the cursor of the
/// next page, if any.
pub open spec fn children_page(children: Seq<CatalogEntry>, request: CatalogRequest) -> Result<
    (Seq<CatalogEntry>, Option<Seq<char>>),
    PaginationIssue,
> {
    keyed_page(children_keyed(children), request)
}

pub open spec fn page_view(r: Result<(Vec<CatalogEntry>, Option<CatalogCursor>), PaginationError>) -> Result<
    (Seq<CatalogEntry>, Option<Seq<char>>),
    PaginationIssue,
> {
    match r {
        Ok((es, c)) => Ok(
            (
                es@,
                match c {
                    Some(c) => Some(c@),
                    None => None,
                },
            ),
        ),
        Err(PaginationError::InvalidCursor(e)) => Err(PaginationIssue::InvalidCursor(e@)),
        Err(PaginationError::Invariant(e)) => Err(PaginationIssue::Invariant(e@)),
    }
}

fn keyed_sort_key(x: &(String, String, CatalogEntry)) -> (r: String)
    ensures
        r@ == x.0@,
{
    x.0.clone()
}

fn keyed_tie_breaker(x: &(String, String, CatalogEntry)) -> (r: String)
    ensures
        r@ == x.1@,
{
    x.1.clone()
}

/// Cuts the page of a relation's children that `request` asks for out of
/// the full list: sorted by sort key and tie-breaker, resumed after the
/// request's cursor, at most one page long, with the cursor of the page's
/// last child when more children follow.
pub fn paginate_children(children: Vec<CatalogEntry>, request: &CatalogRequest) -> (r: Result<
    (Vec<CatalogEntry>, Option<CatalogCursor>),
    PaginationError,
>)
    ensures
        page_view(r) == children_page(children@, *request),
{
    let ghost all = children_keyed(children@);
    let mut keyed: Vec<(String, String, CatalogEntry)> = Vec::new();
    let n = children.len();
    let mut rest = children;
    let ghost orig = rest@;
    let mut i: usize = 0;
    while rest.len() > 0
        invariant
            i + rest@.len() == orig.len(),
            orig.len() == n,
            rest@ == orig.subrange(i as int, orig.len() as int),
            all == children_keyed(orig),
            keyed_views(keyed@) == all.subrange(0, i as int),
        decreases rest@.len(),
    {
        let e = rest.remove(0);
        assert(e == orig[i as int]);
        let s = child_sort_key(&e);
        let t = child_tie_breaker(&e);
        keyed.push((s, t, e));
        assert(keyed_views(keyed@) =~= all.subrange(0, i + 1));
        i = i + 1;
        assert(rest@ =~= orig.subrange(i as int, orig.len() as int));
    }
    assert(all.subrange(0, i as int) =~= all);
    paginate_keyed(keyed, request)
}

/// An entry keyed by its name, then by the last part of its path or, where
/// `by_path` is false, by its name again.
pub open spec fn name_keyed(e: CatalogEntry, by_path: bool) -> KeyedView {
    let last = if e.id@.path.len() > 0 {
        e.id@.path.last()
    } else {
        Seq::<char>::empty()
    };
    (e.qualified_name.object@, if by_path {
        last
    } else {
        e.qualified_name.object@
    }, e)
}

/// The entries with their name keys, in their order.
pub open spec fn entries_name_keyed(entries: Seq<CatalogEntry>, by_path: bool) -> Seq<KeyedView> {
    entries.map_values(|e: CatalogEntry| name_keyed(e, by_path))
}

/// Cuts the page that `request` asks for out of catalog entries ordered by
/// name: ties are broken by the last part of the path (an object's
/// identity) where `by_path` holds, else by the name itself.
pub fn paginate_by_name(entries: Vec<CatalogEntry>, request: &CatalogRequest, by_path: bool) -> (r:
    Result<(Vec<CatalogEntry>, Option<CatalogCursor>), PaginationError>)
    ensures
        page_view(r) == keyed_page(entries_name_keyed(entries@, by_path), *request),
{
    let ghost all = entries_name_keyed(entries@, by_path);
    let mut keyed: Vec<(String, String, CatalogEntry)> = Vec::new();
    let n = entries.len();
    let mut rest = entries;
    let ghost orig = rest@;
    let mut i: usize = 0;
    while rest.len() > 0
        invariant
            i + rest@.len() == orig.len(),
            orig.len() == n,
            rest@ == orig.subrange(i as int, orig.len() as int),
            all == entries_name_keyed(orig, by_path),
            keyed_views(keyed@) == all.subrange(0, i as int),
        decreases rest@.len(),
    {
        let e = rest.remove(0);
        assert(e == orig[i as int]);
        let s = e.qualified_name.object.clone();
        let m = e.id.native_path.len();
        let t = if !by_path {
            e.qualified_name.object.clone()
        } else if m > 0 {
            e.id.native_path[m - 1].clone()
        } else {
            String::new()
        };
        keyed.push((s, t, e));
        assert(keyed_views(keyed@) =~= all.subrange(0, i + 1));
        i = i + 1;
        assert(rest@ =~= orig.subrange(i as int, orig.len() as int));
    }
    assert(all.subrange(0, i as int) =~= all);
    paginate_keyed(keyed, request)
}

/// Cuts the page that `request` asks for out of entries given with their
/// sort keys and tie-breakers.
fn paginate_keyed(keyed: Vec<(String, String, CatalogEntry)>, request: &CatalogRequest) -> (r: Result<
    (Vec<CatalogEntry>, Option<CatalogCursor>),
    PaginationError,
>)
    ensures
        page_view(r) == keyed_page(keyed_views(keyed@), *request),
{
    let sorted = sort_by_keys(keyed);
    let ghost sv = keyed_views(sorted@);
    let mut kept: Vec<(String, String, CatalogEntry)> = Vec::new();
    match &request.key.cursor {
        None => {
            kept = sorted;
        },
        Some(c) => {
            let (s, t) = match c.keyset_parts() {
                Ok(parts) => parts,
                Err(e) => {
                    return Err(PaginationError::InvalidCursor(e));
                },
            };
            let ghost pred = |x: KeyedView| pair_lt((s@, t@), (x.0, x.1));
            let total = sorted.len();
            let mut rest = sorted;
            let mut k: usize = 0;
            while rest.len() > 0
                invariant
                    k + rest@.len() == sv.len(),
                    sv.len() == total,
                    keyed_views(rest@) == sv.subrange(k as int, sv.len() as int),
                    pred == (|x: KeyedView| pair_lt((s@, t@), (x.0, x.1))),
                    keyed_views(kept@) == sv.subrange(0, k as int).filter(pred),
                decreases rest@.len(),
            {
                let ghost before = keyed_views(kept@);
                let ghost old_rest = rest@;
                proof {
                    reveal(Seq::filter);
                }
                assert(keyed_views(old_rest)[0] == sv[k as int]);
                let x = rest.remove(0);
                assert(x == old_rest[0]);
                assert(keyed_view(x) == sv[k as int]);
                assert(sv.subrange(0, k + 1).drop_last() =~= sv.subrange(0, k as int));
                let later = str_less(s, x.0.as_str()) || (str_eq(s, x.0.as_str()) && str_less(
                    t,
                    x.1.as_str(),
                ));
                if later {
                    kept.push(x);
                    assert(keyed_views(kept@) =~= before.push(keyed_view(x)));
                }
                k = k + 1;
                assert(rest@ =~= old_rest.drop_first());
                assert forall|j: int| 0 <= j < rest@.len() implies #[trigger] keyed_views(rest@)[j]
                    == sv[k + j] by {
                    assert(rest@[j] == old_rest[j + 1]);
                    assert(keyed_views(old_rest)[j + 1] == sv[(k - 1) + j + 1]);
                }
                assert(keyed_views(rest@) =~= sv.subrange(k as int, sv.len() as int));
            }
            assert(sv.subrange(0, k as int) =~= sv);
        },
    }
    let ghost rest_view = keyed_views(kept@);
    let limit = if request.page_size < usize::MAX {
        request.page_size + 1
    } else {
        usize::MAX
    };
    if kept.len() > limit {
        kept.truncate(limit);
        assert(keyed_views(kept@) =~= rest_view.take(request.page_size + 1));
    }
    let mut cut = kept;
    let ghost cut_view = keyed_views(cut@);
    let cursor = match finalize_keyset_page(
        &mut cut,
        request.page_size,
        keyed_sort_key,
        keyed_tie_breaker,
    ) {
        Ok(c) => c,
        Err(e) => {
            return Err(PaginationError::Invariant(e));
        },
    };
    let ghost final_view = keyed_views(cut@);
    proof {
        if cut_view.len() > request.page_size {
            assert(final_view =~= cut_view.take(request.page_size as int));
        }
    }
    let mut out: Vec<CatalogEntry> = Vec::new();
    let mut rest = cut;
    let ghost fv = rest@;
    let mut m: usize = 0;
    while rest.len() > 0
        invariant
            m + rest@.len() == fv.len(),
            rest@ == fv.subrange(m as int, fv.len() as int),
            out@ == entries_of(keyed_views(fv)).subrange(0, m as int),
        decreases rest@.len(),
    {
        let x = rest.remove(0);
        assert(x == fv[m as int]);
        out.push(x.2);
        assert(out@ =~= entries_of(keyed_views(fv)).subrange(0, m + 1));
        m = m + 1;
        assert(rest@ =~= fv.subrange(m as int, fv.len() as int));
    }
    assert(entries_of(keyed_views(fv)).subrange(0, m as int) =~= entries_of(keyed_views(fv)));
    Ok((out, cursor))
}

proof fn lemma_insert_keys_elements(s: Seq<KeyedView>, x: KeyedView)
    ensures
        insert_by_keys(s, x).len() == s.len() + 1,
        forall|i: int|
            0 <= i < insert_by_keys(s, x).len() ==> #[trigger] insert_by_keys(s, x)[i] == x
                || s.contains(insert_by_keys(s, x)[i]),
    decreases s.len(),
{
    if s.len() == 0 || !keyed_lt(x, s.last()) {
        assert forall|i: int| 0 <= i < s.push(x).len() implies #[trigger] s.push(x)[i] == x
            || s.contains(s.push(x)[i]) by {
            if i < s.len() {
                assert(s.push(x)[i] == s[i]);
            }
        }
    } else {
        let init = s.drop_last();
        lemma_insert_keys_elements(init, x);
        let r = insert_by_keys(init, x);
        assert forall|i: int| 0 <= i < r.push(s.last()).len() implies #[trigger] r.push(
            s.last(),
        )[i] == x || s.contains(r.push(s.last())[i]) by {
            if i < r.len() {
                assert(r.push(s.last())[i] == r[i]);
                if r[i] != x {
                    let j = choose|j: int| 0 <= j < init.len() && init[j] == r[i];
                    assert(s[j] == init[j]);
                }
            } else {
                assert(r.push(s.last())[i] == s[s.len() - 1]);
            }
        }
    }
}

proof fn lemma_sorted_keys_elements(s: Seq<KeyedView>)
    ensures
        sorted_by_keys(s).len() == s.len(),
        forall|i: int| 0 <= i < sorted_by_keys(s).len() ==> s.contains(#[trigger] sorted_by_keys(s)[i]),
    decreases s.len(),
{
    if s.len() > 0 {
        let init = s.drop_last();
        lemma_sorted_keys_elements(init);
        let si = sorted_by_keys(init);
        lemma_insert_keys_elements(si, s.last());
        assert forall|i: int| 0 <= i < sorted_by_keys(s).len() implies s.contains(
            #[trigger] sorted_by_keys(s)[i],
        ) by {
            let y = sorted_by_keys(s)[i];
            if y == s.last() {
                assert(s[s.len() - 1] == y);
            } else {
                let j = choose|j: int| 0 <= j < si.len() && si[j] == y;
                let k = choose|k: int| 0 <= k < init.len() && init[k] == si[j];
                assert(s[k] == init[k]);
            }
        }
    }
}

proof fn lemma_filter_within(s: Seq<KeyedView>, pred: spec_fn(KeyedView) -> bool)
    ensures
        forall|i: int| 0 <= i < s.filter(pred).len() ==> s.contains(#[trigger] s.filter(pred)[i]),
    decreases s.len(),
{
    reveal(Seq::filter);
    if s.len() > 0 {
        let init = s.drop_last();
        lemma_filter_within(init, pred);
        let sub = init.filter(pred);
        assert forall|i: int| 0 <= i < s.filter(pred).len() implies s.contains(
            #[trigger] s.filter(pred)[i],
        ) by {
            if i < sub.len() {
                assert(s.filter(pred)[i] == sub[i]);
                let j = choose|j: int| 0 <= j < init.len() && init[j] == sub[i];
                assert(s[j] == init[j]);
            } else {
                assert(s.filter(pred)[i] == s[s.len() - 1]);
            }
        }
    }
}

/// Whether keys sort after the position a cursor names (any keys do without
/// a cursor).
pub open spec fn after_position(cursor: Option<CatalogCursor>, keys: (Seq<char>, Seq<char>)) -> bool {
    match cursor {
        None => true,
        Some(c) => match keyset_parts_spec(c@) {
            Ok((s, t)) => pair_lt((s, t), keys),
            Err(_) => true,
        },
    }
}

/// A page of children holds at most one page of entries, each a child of
/// the full list; resumed from a cursor, every entry sorts after the
/// cursor's (sort key, tie-breaker), so a later page never repeats an
/// entry of an earlier one.
pub proof fn lemma_children_page_law(children: Seq<CatalogEntry>, request: CatalogRequest)
    requires
        children_page(children, request) is Ok,
    ensures
        ({
            let (page, _) = children_page(children, request)->Ok_0;
            &&& page.len() <= request.page_size
            &&& forall|i: int| 0 <= i < page.len() ==> children.contains(#[trigger] page[i])
            &&& forall|i: int|
                0 <= i < page.len() ==> after_position(
                    request.key.cursor,
                    (pg_child_sort_key(#[trigger] page[i]), pg_child_tie_breaker(page[i])),
                )
        }),
{
    let input = children_keyed(children);
    let sorted = sorted_by_keys(input);
    lemma_sorted_keys_elements(input);
    assert forall|i: int| 0 <= i < sorted.len() implies #[trigger] sorted[i] == child_keyed(sorted[i].2)
        && children.contains(sorted[i].2) by {
        let j = choose|j: int| 0 <= j < input.len() && input[j] == sorted[i];
        assert(children[j] == sorted[i].2);
    }
    assert(after_cursor(sorted, request.key.cursor) is Ok);
    let rest = after_cursor(sorted, request.key.cursor)->Ok_0;
    assert forall|i: int| 0 <= i < rest.len() implies #[trigger] rest[i] == child_keyed(rest[i].2)
        && children.contains(rest[i].2) by {
        match request.key.cursor {
            None => {
                assert(rest[i] == sorted[i]);
            },
            Some(c) => {
                let (s, t) = keyset_parts_spec(c@)->Ok_0;
                let pred = |x: KeyedView| pair_lt((s, t), (x.0, x.1));
                lemma_filter_within(sorted, pred);
                assert(rest == sorted.filter(pred));
                assert(sorted.contains(rest[i]));
                let j = choose|j: int| 0 <= j < sorted.len() && sorted[j] == rest[i];
                assert(sorted[j] == child_keyed(sorted[j].2));
            },
        }
    }
    assert forall|i: int| 0 <= i < rest.len() implies after_position(
        request.key.cursor,
        (#[trigger] rest[i].0, rest[i].1),
    ) by {
        match request.key.cursor {
            None => {},
            Some(c) => {
                let (s, t) = keyset_parts_spec(c@)->Ok_0;
                let pred = |x: KeyedView| pair_lt((s, t), (x.0, x.1));
                sorted.filter_lemma(pred);
                assert(rest == sorted.filter(pred));
                assert(pred(rest[i]));
            },
        }
    }
    let page_size = request.page_size;
    let cut = if rest.len() > page_size + 1 {
        rest.take(page_size + 1)
    } else {
        rest
    };
    assert forall|i: int| 0 <= i < cut.len() implies #[trigger] cut[i] == rest[i] by {}
    if cut.len() > page_size {
        let page = cut.take(page_size as int);
        assert forall|i: int| 0 <= i < page.len() implies #[trigger] entries_of(page)[i] == rest[i].2 by {
            assert(page[i] == cut[i]);
        }
    } else {
        assert forall|i: int| 0 <= i < cut.len() implies #[trigger] entries_of(cut)[i] == rest[i].2 by {}
    }
}

} // verus!
