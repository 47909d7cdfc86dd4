//! Stable ordering of named DDL fragments by the bytes of their names.
use vstd::prelude::*;

use crate::page::{bytes_lt, str_less, str_lt};

verus! {

/// `s` with `x` placed after every element whose name does not sort after
/// `x`'s: one step of a stable insertion sort.
pub open spec fn insert_by_name<T>(s: Seq<(String, T)>, x: (String, T)) -> Seq<(String, T)>
    decreases s.len(),
{
    if s.len() == 0 || !str_lt(x.0@, s.last().0@) {
        s.push(x)
    } else {
        insert_by_name(s.drop_last(), x).push(s.last())
    }
}

/// `s` stably sorted by the UTF-8 bytes of the names, as `sort_by` on
/// `name.as_bytes()` orders it.
pub open spec fn sorted_by_name<T>(s: Seq<(String, T)>) -> Seq<(String, T)>
    decreases s.len(),
{
    if s.len() == 0 {
        Seq::empty()
    } else {
        insert_by_name(sorted_by_name(s.drop_last()), s.last())
    }
}

proof fn lemma_insert_at<T>(s: Seq<(String, T)>, x: (String, T), j: int)
    requires
        0 <= j <= s.len(),
        forall|k: int| j <= k < s.len() ==> str_lt(x.0@, #[trigger] s[k].0@),
        j == 0 || !str_lt(x.0@, s[j - 1].0@),
    ensures
        insert_by_name(s, x) == s.insert(j, x),
    decreases s.len(),
{
    if j == s.len() {
        assert(s.push(x) =~= s.insert(j, x));
    } else {
        let init = s.drop_last();
        assert forall|k: int| j <= k < init.len() implies str_lt(x.0@, #[trigger] init[k].0@) by {
            assert(init[k] == s[k]);
        }
        if j > 0 {
            assert(init[j - 1] == s[j - 1]);
        }
        assert(str_lt(x.0@, s[s.len() - 1].0@));
        lemma_insert_at(init, x, j);
        assert(init.insert(j, x).push(s.last()) =~= s.insert(j, x));
    }
}

/// Stably sorts named fragments by the bytes of their names.
pub fn sort_by_name<T>(v: Vec<(String, T)>) -> (r: Vec<(String, T)>)
    ensures
        r@ == sorted_by_name(v@),
{
    let ghost orig = v@;
    let n = v.len();
    let mut rest = v;
    let mut out: Vec<(String, T)> = Vec::new();
    let mut consumed: usize = 0;
    while rest.len() > 0
        invariant
            consumed + rest@.len() == orig.len(),
            orig.len() == n,
            rest@ == orig.subrange(consumed as int, orig.len() as int),
            out@ == sorted_by_name(orig.subrange(0, consumed as int)),
        decreases rest@.len(),
    {
        let x = rest.remove(0);
        assert(x == orig[consumed as int]);
        assert(orig.subrange(0, consumed + 1).drop_last() =~= orig.subrange(0, consumed as int));
        let mut j: usize = out.len();
        while j > 0 && str_less(x.0.as_str(), out[j - 1].0.as_str())
            invariant
                j <= out@.len(),
                forall|k: int| j <= k < out@.len() ==> str_lt(x.0@, #[trigger] out@[k].0@),
            decreases j,
        {
            j = j - 1;
        }
        proof {
            lemma_insert_at(out@, x, j as int);
        }
        out.insert(j, x);
        consumed = consumed + 1;
        assert(rest@ =~= orig.subrange(consumed as int, orig.len() as int));
    }
    assert(orig.subrange(0, consumed as int) =~= orig);
    out
}


/// `s` with `x` placed after every element whose key is not larger.
pub open spec fn insert_by_key<T>(s: Seq<(u32, T)>, x: (u32, T)) -> Seq<(u32, T)>
    decreases s.len(),
{
    if s.len() == 0 || !(x.0 < s.last().0) {
        s.push(x)
    } else {
        insert_by_key(s.drop_last(), x).push(s.last())
    }
}

/// `s` stably sorted by its numeric keys, as `sort_by_key` orders it.
pub open spec fn sorted_by_key<T>(s: Seq<(u32, T)>) -> Seq<(u32, T)>
    decreases s.len(),
{
    if s.len() == 0 {
        Seq::empty()
    } else {
        insert_by_key(sorted_by_key(s.drop_last()), s.last())
    }
}

proof fn lemma_insert_key_at<T>(s: Seq<(u32, T)>, x: (u32, T), j: int)
    requires
        0 <= j <= s.len(),
        forall|k: int| j <= k < s.len() ==> x.0 < #[trigger] s[k].0,
        j == 0 || !(x.0 < s[j - 1].0),
    ensures
        insert_by_key(s, x) == s.insert(j, x),
    decreases s.len(),
{
    if j == s.len() {
        assert(s.push(x) =~= s.insert(j, x));
    } else {
        let init = s.drop_last();
        assert forall|k: int| j <= k < init.len() implies x.0 < #[trigger] init[k].0 by {
            assert(init[k] == s[k]);
        }
        if j > 0 {
            assert(init[j - 1] == s[j - 1]);
        }
        assert(x.0 < s[s.len() - 1].0);
        lemma_insert_key_at(init, x, j);
        assert(init.insert(j, x).push(s.last()) =~= s.insert(j, x));
    }
}

/// Stably sorts keyed values by their keys.
pub fn sort_by_key<T>(v: Vec<(u32, T)>) -> (r: Vec<(u32, T)>)
    ensures
        r@ == sorted_by_key(v@),
{
    let ghost orig = v@;
    let n = v.len();
    let mut rest = v;
    let mut out: Vec<(u32, T)> = Vec::new();
    let mut consumed: usize = 0;
    while rest.len() > 0
        invariant
            consumed + rest@.len() == orig.len(),
            orig.len() == n,
            rest@ == orig.subrange(consumed as int, orig.len() as int),
            out@ == sorted_by_key(orig.subrange(0, consumed as int)),
        decreases rest@.len(),
    {
        let x = rest.remove(0);
        assert(x == orig[consumed as int]);
        assert(orig.subrange(0, consumed + 1).drop_last() =~= orig.subrange(0, consumed as int));
        let mut j: usize = out.len();
        while j > 0 && x.0 < out[j - 1].0
            invariant
                j <= out@.len(),
                forall|k: int| j <= k < out@.len() ==> x.0 < #[trigger] out@[k].0,
            decreases j,
        {
            j = j - 1;
        }
        proof {
            lemma_insert_key_at(out@, x, j as int);
        }
        out.insert(j, x);
        consumed = consumed + 1;
        assert(rest@ =~= orig.subrange(consumed as int, orig.len() as int));
    }
    assert(orig.subrange(0, consumed as int) =~= orig);
    out
}


proof fn lemma_insert_key_elements<T>(s: Seq<(u32, T)>, x: (u32, T))
    ensures
        insert_by_key(s, x).len() == s.len() + 1,
        forall|i: int|
            0 <= i < insert_by_key(s, x).len() ==> #[trigger] insert_by_key(s, x)[i] == x
                || s.contains(insert_by_key(s, x)[i]),
    decreases s.len(),
{
    if s.len() == 0 || !(x.0 < s.last().0) {
        assert forall|i: int| 0 <= i < s.push(x).len() implies #[trigger] s.push(x)[i] == x
            || s.contains(s.push(x)[i]) by {
            if i < s.len() {
                assert(s.push(x)[i] == s[i]);
            }
        }
    } else {
        let init = s.drop_last();
        lemma_insert_key_elements(init, x);
        let r = insert_by_key(init, x);
        assert forall|i: int| 0 <= i < r.push(s.last()).len() implies #[trigger] r.push(
            s.last(),
        )[i] == x || s.contains(r.push(s.last())[i]) by {
            if i < r.len() {
                assert(r.push(s.last())[i] == r[i]);
                if r[i] != x {
                    let j = choose|j: int| 0 <= j < init.len() && init[j] == r[i];
                    assert(s[j] == init[j]);
                }
            } else {
                assert(r.push(s.last())[i] == s[s.len() - 1]);
            }
        }
    }
}

/// Sorting by key only reorders: every sorted element comes from the input.
pub proof fn lemma_sorted_by_key_elements<T>(s: Seq<(u32, T)>)
    ensures
        sorted_by_key(s).len() == s.len(),
        forall|i: int| 0 <= i < sorted_by_key(s).len() ==> s.contains(#[trigger] sorted_by_key(s)[i]),
    decreases s.len(),
{
    if s.len() > 0 {
        let init = s.drop_last();
        lemma_sorted_by_key_elements(init);
        let si = sorted_by_key(init);
        lemma_insert_key_elements(si, s.last());
        assert forall|i: int| 0 <= i < sorted_by_key(s).len() implies s.contains(
            #[trigger] sorted_by_key(s)[i],
        ) by {
            let y = sorted_by_key(s)[i];
            if y == s.last() {
                assert(s[s.len() - 1] == y);
            } else {
                let j = choose|j: int| 0 <= j < si.len() && si[j] == y;
                let k = choose|k: int| 0 <= k < init.len() && init[k] == si[j];
                assert(s[k] == init[k]);
            }
        }
    }
}

proof fn lemma_insert_name_elements<T>(s: Seq<(String, T)>, x: (String, T))
    ensures
        insert_by_name(s, x).len() == s.len() + 1,
        forall|i: int|
            0 <= i < insert_by_name(s, x).len() ==> #[trigger] insert_by_name(s, x)[i] == x
                || s.contains(insert_by_name(s, x)[i]),
    decreases s.len(),
{
    if s.len() == 0 || !str_lt(x.0@, s.last().0@) {
        assert forall|i: int| 0 <= i < s.push(x).len() implies #[trigger] s.push(x)[i] == x
            || s.contains(s.push(x)[i]) by {
            if i < s.len() {
                assert(s.push(x)[i] == s[i]);
            }
        }
    } else {
        let init = s.drop_last();
        lemma_insert_name_elements(init, x);
        let r = insert_by_name(init, x);
        assert forall|i: int| 0 <= i < r.push(s.last()).len() implies #[trigger] r.push(
            s.last(),
        )[i] == x || s.contains(r.push(s.last())[i]) by {
            if i < r.len() {
                assert(r.push(s.last())[i] == r[i]);
                if r[i] != x {
                    let j = choose|j: int| 0 <= j < init.len() && init[j] == r[i];
                    assert(s[j] == init[j]);
                }
            } else {
                assert(r.push(s.last())[i] == s[s.len() - 1]);
            }
        }
    }
}

/// Sorting by name only reorders: every sorted element comes from the input.
pub proof fn lemma_sorted_by_name_elements<T>(s: Seq<(String, T)>)
    ensures
        sorted_by_name(s).len() == s.len(),
        forall|i: int| 0 <= i < sorted_by_name(s).len() ==> s.contains(#[trigger] sorted_by_name(s)[i]),
    decreases s.len(),
{
    if s.len() > 0 {
        let init = s.drop_last();
        lemma_sorted_by_name_elements(init);
        let si = sorted_by_name(init);
        lemma_insert_name_elements(si, s.last());
        assert forall|i: int| 0 <= i < sorted_by_name(s).len() implies s.contains(
            #[trigger] sorted_by_name(s)[i],
        ) by {
            let y = sorted_by_name(s)[i];
            if y == s.last() {
                assert(s[s.len() - 1] == y);
            } else {
                let j = choose|j: int| 0 <= j < si.len() && si[j] == y;
                let k = choose|k: int| 0 <= k < init.len() && init[k] == si[j];
                assert(s[k] == init[k]);
            }
        }
    }
}

/// `bytes_lt` is asymmetric.
proof fn lemma_bytes_lt_asymmetric(a: Seq<u8>, b: Seq<u8>)
    ensures
        bytes_lt(a, b) ==> !bytes_lt(b, a),
    decreases a.len(),
{
    if a.len() > 0 && b.len() > 0 && a[0] == b[0] {
        lemma_bytes_lt_asymmetric(a.drop_first(), b.drop_first());
    }
}

/// No name sorts before the name just before it.
pub open spec fn names_ordered<T>(s: Seq<(String, T)>) -> bool {
    forall|i: int, j: int|
        0 <= i && j == i + 1 && j < s.len() ==> !str_lt(#[trigger] s[j].0@, #[trigger] s[i].0@)
}

/// No key is smaller than the key just before it.
pub open spec fn keys_ordered<T>(s: Seq<(u32, T)>) -> bool {
    forall|i: int, j: int| 0 <= i && j == i + 1 && j < s.len() ==> #[trigger] s[i].0 <= #[trigger] s[j].0
}

proof fn lemma_insert_by_name_law<T>(s: Seq<(String, T)>, x: (String, T))
    requires
        names_ordered(s),
    ensures
        names_ordered(insert_by_name(s, x)),
        insert_by_name(s, x).to_multiset() == s.to_multiset().insert(x),
        insert_by_name(s, x).last() == x || (s.len() > 0 && insert_by_name(s, x).last() == s.last()),
    decreases s.len(),
{
    broadcast use vstd::seq_lib::to_multiset_build;

    if s.len() == 0 || !str_lt(x.0@, s.last().0@) {
        let r = s.push(x);
        assert forall|i: int, j: int|
            0 <= i && j == i + 1 && j < r.len() implies !str_lt(#[trigger] r[j].0@, #[trigger] r[i].0@) by {
            if j < s.len() {
                assert(r[j] == s[j] && r[i] == s[i]);
            } else {
                assert(r[i] == s.last());
            }
        }
    } else {
        let init = s.drop_last();
        assert(names_ordered(init)) by {
            assert forall|i: int, j: int|
                0 <= i && j == i + 1 && j < init.len() implies !str_lt(#[trigger] init[j].0@, #[trigger] init[i].0@) by {
                assert(init[j] == s[j] && init[i] == s[i]);
            }
        }
        lemma_insert_by_name_law(init, x);
        let m = insert_by_name(init, x);
        let r = m.push(s.last());
        if m.last() == x {
            lemma_bytes_lt_asymmetric(
                vstd::utf8::encode_utf8(x.0@),
                vstd::utf8::encode_utf8(s.last().0@),
            );
        } else {
            assert(s[s.len() - 2] == init.last());
        }
        assert forall|i: int, j: int|
            0 <= i && j == i + 1 && j < r.len() implies !str_lt(#[trigger] r[j].0@, #[trigger] r[i].0@) by {
            if j < m.len() {
                assert(r[j] == m[j] && r[i] == m[i]);
            } else {
                assert(r[i] == m.last());
            }
        }
        assert(s.to_multiset() == init.to_multiset().insert(s.last())) by {
            assert(init.push(s.last()) =~= s);
        }
        assert(r.to_multiset() =~= s.to_multiset().insert(x));
    }
}

/// Sorting by name is a stable sort's result: the same elements, each as
/// often as before, with no name sorting before the name just before it.
pub proof fn lemma_sorted_by_name_law<T>(s: Seq<(String, T)>)
    ensures
        sorted_by_name(s).to_multiset() == s.to_multiset(),
        names_ordered(sorted_by_name(s)),
    decreases s.len(),
{
    broadcast use vstd::seq_lib::to_multiset_build;

    if s.len() == 0 {
        assert(sorted_by_name(s) =~= s);
    } else {
        let init = s.drop_last();
        lemma_sorted_by_name_law(init);
        lemma_insert_by_name_law(sorted_by_name(init), s.last());
        assert(init.push(s.last()) =~= s);
    }
}

proof fn lemma_insert_by_key_law<T>(s: Seq<(u32, T)>, x: (u32, T))
    requires
        keys_ordered(s),
    ensures
        keys_ordered(insert_by_key(s, x)),
        insert_by_key(s, x).to_multiset() == s.to_multiset().insert(x),
        insert_by_key(s, x).last() == x || (s.len() > 0 && insert_by_key(s, x).last() == s.last()),
    decreases s.len(),
{
    broadcast use vstd::seq_lib::to_multiset_build;

    if s.len() == 0 || !(x.0 < s.last().0) {
        let r = s.push(x);
        assert forall|i: int, j: int|
            0 <= i && j == i + 1 && j < r.len() implies #[trigger] r[i].0 <= #[trigger] r[j].0 by {
            if j < s.len() {
                assert(r[j] == s[j] && r[i] == s[i]);
            } else {
                assert(r[i] == s.last());
            }
        }
    } else {
        let init = s.drop_last();
        assert(keys_ordered(init)) by {
            assert forall|i: int, j: int|
                0 <= i && j == i + 1 && j < init.len() implies #[trigger] init[i].0 <= #[trigger] init[j].0 by {
                assert(init[j] == s[j] && init[i] == s[i]);
            }
        }
        lemma_insert_by_key_law(init, x);
        let m = insert_by_key(init, x);
        let r = m.push(s.last());
        if m.last() != x {
            assert(s[s.len() - 2] == init.last());
        }
        assert forall|i: int, j: int|
            0 <= i && j == i + 1 && j < r.len() implies #[trigger] r[i].0 <= #[trigger] r[j].0 by {
            if j < m.len() {
                assert(r[j] == m[j] && r[i] == m[i]);
            } else {
                assert(r[i] == m.last());
            }
        }
        assert(s.to_multiset() == init.to_multiset().insert(s.last())) by {
            assert(init.push(s.last()) =~= s);
        }
        assert(r.to_multiset() =~= s.to_multiset().insert(x));
    }
}

/// Sorting by key is a stable sort's result: the same elements, each as
/// often as before, in non-decreasing key order.
pub proof fn lemma_sorted_by_key_law<T>(s: Seq<(u32, T)>)
    ensures
        sorted_by_key(s).to_multiset() == s.to_multiset(),
        keys_ordered(sorted_by_key(s)),
    decreases s.len(),
{
    broadcast use vstd::seq_lib::to_multiset_build;

    if s.len() == 0 {
        assert(sorted_by_key(s) =~= s);
    } else {
        let init = s.drop_last();
        lemma_sorted_by_key_law(init);
        lemma_insert_by_key_law(sorted_by_key(init), s.last());
        assert(init.push(s.last()) =~= s);
    }
}

} // verus!
