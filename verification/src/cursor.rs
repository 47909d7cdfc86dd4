//! Versioned keyset cursors: `v1:<sort bytes>:<tie bytes>:<sort key><tie-breaker>`.
use vstd::prelude::*;
use vstd::string::*;
use vstd::utf8::*;

use crate::catalog_error::{CatalogIssue, CatalogValidationError};
use crate::text::{
    all_digits, byte_len, chars_of, decimal, is_ascii_digit, is_prefix, lemma_decimal_digits,
    lemma_decimal_has_no, lemma_parse_decimal, parse_usize, parse_usize_spec, push_decimal,
    push_str, sub_chars,
};

verus! {

broadcast use encode_utf8_valid_utf8, encode_utf8_decode_utf8;

/// An opaque continuation token for a catalog listing.
#[derive(Debug, PartialEq, Eq, Hash)]
pub struct CatalogCursor(String);

impl View for CatalogCursor {
    type V = Seq<char>;

    closed spec fn view(&self) -> Seq<char> {
        self.0@
    }
}

impl Clone for CatalogCursor {
    fn clone(&self) -> (r: Self)
        ensures
            r@ == self@,
    {
        CatalogCursor(self.0.clone())
    }
}

pub open spec fn opt_cursor_view(c: Option<CatalogCursor>) -> Option<Seq<char>> {
    match c {
        Some(c) => Some(c@),
        None => None,
    }
}

// ---------------------------------------------------------------------------
// Specification of the keyset encoding
// ---------------------------------------------------------------------------

pub open spec fn keyset_prefix() -> Seq<char> {
    seq!['v', '1', ':']
}

/// Position of the first `c` in `s`, or -1.
pub open spec fn index_of(s: Seq<char>, c: char) -> int
    decreases s.len(),
{
    if s.len() == 0 {
        -1
    } else if s[0] == c {
        0
    } else if index_of(s.drop_first(), c) < 0 {
        -1
    } else {
        index_of(s.drop_first(), c) + 1
    }
}

/// The number of UTF-8 bytes that encode `s`.
pub open spec fn utf8_len(s: Seq<char>) -> nat {
    encode_utf8(s).len()
}

/// The cursor text for a sort key and a tie-breaker.
pub open spec fn keyset_encode(sort: Seq<char>, tie: Seq<char>) -> Seq<char> {
    keyset_prefix() + decimal(utf8_len(sort)) + seq![':'] + decimal(utf8_len(tie)) + seq![':'] + sort
        + tie
}

/// What `keyset_parts` gives back for a cursor text: the sort key and the
/// tie-breaker, or why the text is not a keyset cursor.
pub open spec fn keyset_parts_spec(c: Seq<char>) -> Result<(Seq<char>, Seq<char>), CatalogIssue> {
    if !is_prefix(keyset_prefix(), c) {
        Err(CatalogIssue::MalformedCursor)
    } else {
        let e = c.subrange(3, c.len() as int);
        let i = index_of(e, ':');
        if i < 0 {
            Err(CatalogIssue::MalformedCursor)
        } else {
            let e2 = e.subrange(i + 1, e.len() as int);
            let j = index_of(e2, ':');
            if j < 0 {
                Err(CatalogIssue::MalformedCursor)
            } else {
                let payload = e2.subrange(j + 1, e2.len() as int);
                match (parse_usize_spec(e.subrange(0, i)), parse_usize_spec(e2.subrange(0, j))) {
                    (Some(sl), Some(tl)) => {
                        if tl == 0 {
                            Err(CatalogIssue::EmptyCursorTieBreaker)
                        } else if sl + tl > usize::MAX {
                            Err(CatalogIssue::MalformedCursor)
                        } else {
                            let b = encode_utf8(payload);
                            if b.len() != sl + tl || !is_char_boundary(b, sl as int) {
                                Err(CatalogIssue::MalformedCursor)
                            } else {
                                Ok(
                                    (
                                        decode_utf8(b.subrange(0, sl as int)),
                                        decode_utf8(b.subrange(sl as int, b.len() as int)),
                                    ),
                                )
                            }
                        }
                    },
                    _ => Err(CatalogIssue::MalformedCursor),
                }
            }
        }
    }
}

/// The view of a keyset split.
pub open spec fn parts_view(r: Result<(&str, &str), CatalogValidationError>) -> Result<
    (Seq<char>, Seq<char>),
    CatalogIssue,
> {
    match r {
        Ok((a, b)) => Ok((a@, b@)),
        Err(e) => Err(e@),
    }
}

pub open spec fn is_ascii_char(c: char) -> bool {
    (c as u32) < 128
}

pub open spec fn all_ascii(s: Seq<char>) -> bool {
    forall|i: int| 0 <= i < s.len() ==> #[trigger] is_ascii_char(s[i])
}

// ---------------------------------------------------------------------------
// Lemmas
// ---------------------------------------------------------------------------

pub proof fn lemma_encode_concat(a: Seq<char>, b: Seq<char>)
    ensures
        encode_utf8(a + b) == encode_utf8(a) + encode_utf8(b),
    decreases a.len(),
{
    if a.len() == 0 {
        assert(a + b =~= b);
        assert(encode_utf8(a) =~= Seq::<u8>::empty());
        assert(encode_utf8(a) + encode_utf8(b) =~= encode_utf8(b));
    } else {
        assert((a + b)[0] == a[0]);
        assert((a + b).drop_first() =~= a.drop_first() + b);
        lemma_encode_concat(a.drop_first(), b);
        assert(encode_utf8(a + b) =~= encode_scalar(a[0] as u32) + (encode_utf8(a.drop_first())
            + encode_utf8(b)));
    }
}

pub proof fn lemma_encode_ascii_len(a: Seq<char>)
    requires
        all_ascii(a),
    ensures
        encode_utf8(a).len() == a.len(),
    decreases a.len(),
{
    if a.len() > 0 {
        assert(is_ascii_char(a[0]));
        assert(all_ascii(a.drop_first())) by {
            assert forall|i: int| 0 <= i < a.drop_first().len() implies #[trigger] is_ascii_char(
                a.drop_first()[i],
            ) by {
                assert(is_ascii_char(a[i + 1]));
            }
        }
        lemma_encode_ascii_len(a.drop_first());
        assert(has_width_1_encoding(a[0] as u32));
    }
}

pub proof fn lemma_boundary_at_concat(a: Seq<char>, b: Seq<char>)
    ensures
        is_char_boundary(encode_utf8(a + b), encode_utf8(a).len() as int),
    decreases a.len(),
{
    lemma_encode_concat(a, b);
    if a.len() == 0 {
    } else {
        let ab = a + b;
        let bytes = encode_utf8(ab);
        encode_utf8_first_scalar(ab);
        assert(ab[0] == a[0]);
        assert(ab.drop_first() =~= a.drop_first() + b);
        assert(pop_first_scalar(bytes) =~= encode_utf8(ab.drop_first()));
        lemma_boundary_at_concat(a.drop_first(), b);
        lemma_encode_concat(a.drop_first(), b);
        assert(encode_utf8(a).len() == encode_scalar(a[0] as u32).len() + encode_utf8(
            a.drop_first(),
        ).len());
    }
}

pub proof fn lemma_index_of_first(s: Seq<char>, c: char, i: int)
    requires
        0 <= i < s.len(),
        s[i] == c,
        forall|k: int| 0 <= k < i ==> s[k] != c,
    ensures
        index_of(s, c) == i,
    decreases i,
{
    if i > 0 {
        lemma_index_of_first(s.drop_first(), c, i - 1);
    }
}

pub proof fn lemma_index_of_none(s: Seq<char>, c: char)
    requires
        forall|k: int| 0 <= k < s.len() ==> s[k] != c,
    ensures
        index_of(s, c) == -1,
    decreases s.len(),
{
    if s.len() > 0 {
        lemma_index_of_none(s.drop_first(), c);
    }
}

pub proof fn lemma_index_of_after(a: Seq<char>, c: char, b: Seq<char>)
    requires
        !a.contains(c),
    ensures
        index_of(a + seq![c] + b, c) == a.len(),
{
    let s = a + seq![c] + b;
    assert forall|k: int| 0 <= k < a.len() implies s[k] != c by {
        assert(s[k] == a[k]);
    }
    lemma_index_of_first(s, c, a.len() as int);
}

proof fn lemma_parse_ascii(s: Seq<char>)
    requires
        parse_usize_spec(s) is Some,
    ensures
        all_ascii(s),
{
    let d = if s.len() > 0 && s[0] == '+' {
        s.drop_first()
    } else {
        s
    };
    assert forall|i: int| 0 <= i < s.len() implies #[trigger] is_ascii_char(s[i]) by {
        if s.len() > 0 && s[0] == '+' {
            if i > 0 {
                assert(is_ascii_digit(d[i - 1]));
            }
        } else {
            assert(is_ascii_digit(d[i]));
        }
    }
}

/// The encoding law: splitting the text that `keyset_encode` builds gives
/// back the sort key and the tie-breaker whenever the tie-breaker is
/// non-empty and the two byte lengths sum to a `usize`.
pub proof fn lemma_keyset_roundtrip(sort: Seq<char>, tie: Seq<char>)
    requires
        utf8_len(sort) <= usize::MAX,
        utf8_len(tie) <= usize::MAX,
    ensures
        keyset_parts_spec(keyset_encode(sort, tie)) == (if utf8_len(tie) == 0 {
            Err::<(Seq<char>, Seq<char>), CatalogIssue>(CatalogIssue::EmptyCursorTieBreaker)
        } else if utf8_len(sort) + utf8_len(tie) > usize::MAX {
            Err(CatalogIssue::MalformedCursor)
        } else {
            Ok((sort, tie))
        }),
{
    let ns = utf8_len(sort);
    let nt = utf8_len(tie);
    let ds = decimal(ns);
    let dt = decimal(nt);
    let c = keyset_encode(sort, tie);
    assert(is_prefix(keyset_prefix(), c)) by {
        assert(c.subrange(0, 3) =~= keyset_prefix());
    }
    let e = c.subrange(3, c.len() as int);
    let rest1 = dt + seq![':'] + sort + tie;
    assert(e =~= ds + seq![':'] + rest1);
    lemma_decimal_has_no(ns, ':');
    lemma_decimal_has_no(nt, ':');
    lemma_index_of_after(ds, ':', rest1);
    let i = index_of(e, ':');
    assert(i == ds.len());
    assert(e.subrange(0, i) =~= ds);
    let e2 = e.subrange(i + 1, e.len() as int);
    let rest2 = sort + tie;
    assert(e2 =~= dt + seq![':'] + rest2);
    lemma_index_of_after(dt, ':', rest2);
    let j = index_of(e2, ':');
    assert(e2.subrange(0, j) =~= dt);
    let payload = e2.subrange(j + 1, e2.len() as int);
    assert(payload =~= sort + tie);
    lemma_parse_decimal(ns as usize);
    lemma_parse_decimal(nt as usize);
    if nt != 0 && ns + nt <= usize::MAX {
        let b = encode_utf8(payload);
        lemma_encode_concat(sort, tie);
        lemma_boundary_at_concat(sort, tie);
        assert(b.subrange(0, ns as int) =~= encode_utf8(sort));
        assert(b.subrange(ns as int, b.len() as int) =~= encode_utf8(tie));
    }
}

pub proof fn lemma_utf8_len_zero(s: Seq<char>)
    ensures
        (utf8_len(s) == 0) == (s.len() == 0),
{
    if s.len() > 0 {
        encode_utf8_first_scalar(s);
        assert(encode_scalar(s[0] as u32).len() >= 1);
        assert(encode_utf8(s) =~= encode_scalar(s[0] as u32) + encode_utf8(s.drop_first()));
    }
}

// ---------------------------------------------------------------------------
// Executable cursor operations
// ---------------------------------------------------------------------------

impl CatalogCursor {
    /// A cursor holding `value` as its text.
    pub fn new(value: String) -> (r: Self)
        ensures
            r@ == value@,
    {
        CatalogCursor(value)
    }

    /// The cursor's text.
    pub fn as_str(&self) -> (r: &str)
        ensures
            r@ == self@,
    {
        self.0.as_str()
    }

    /// The cursor for a row whose normalized sort key and native tie-breaker
    /// are given; refused when the tie-breaker is empty.
    pub fn from_keyset(normalized_sort_key: &str, native_tie_breaker: &str) -> (r: Result<
        Self,
        CatalogValidationError,
    >)
        ensures
            native_tie_breaker@.len() == 0 ==> r == Err::<Self, CatalogValidationError>(
                CatalogValidationError::EmptyCursorTieBreaker,
            ),
            native_tie_breaker@.len() > 0 && utf8_len(normalized_sort_key@) + utf8_len(
                native_tie_breaker@,
            ) <= usize::MAX ==> (r matches Ok(c) && c@ == keyset_encode(
                normalized_sort_key@,
                native_tie_breaker@,
            )),
            native_tie_breaker@.len() > 0 && utf8_len(normalized_sort_key@) + utf8_len(
                native_tie_breaker@,
            ) > usize::MAX ==> r == Err::<Self, CatalogValidationError>(
                CatalogValidationError::MalformedCursor,
            ),
    {
        if native_tie_breaker.is_empty() {
            return Err(CatalogValidationError::EmptyCursorTieBreaker);
        }
        let sort_len = byte_len(normalized_sort_key);
        let tie_len = byte_len(native_tie_breaker);
        let mut text = String::new();
        push_str(&mut text, "v1:");
        push_decimal(&mut text, sort_len as u64);
        push_str(&mut text, ":");
        push_decimal(&mut text, tie_len as u64);
        push_str(&mut text, ":");
        push_str(&mut text, normalized_sort_key);
        push_str(&mut text, native_tie_breaker);
        proof {
            reveal_strlit("v1:");
            reveal_strlit(":");
            assert(text@ =~= keyset_encode(normalized_sort_key@, native_tie_breaker@));
            lemma_utf8_len_zero(native_tie_breaker@);
            lemma_keyset_roundtrip(normalized_sort_key@, native_tie_breaker@);
        }
        let cursor = CatalogCursor(text);
        match cursor.keyset_parts() {
            Ok(_) => Ok(cursor),
            Err(e) => Err(e),
        }
    }

    /// The sort key and tie-breaker of a keyset cursor.
    pub fn keyset_parts(&self) -> (r: Result<(&str, &str), CatalogValidationError>)
        ensures
            parts_view(r) == keyset_parts_spec(self@),
    {
        let s = self.0.as_str();
        let cs = chars_of(s);
        let n = cs.len();
        let ghost c = cs@;
        if !(n >= 3 && cs[0] == 'v' && cs[1] == '1' && cs[2] == ':') {
            proof {
                if is_prefix(keyset_prefix(), c) {
                    assert(c.subrange(0, 3)[0] == 'v');
                    assert(c.subrange(0, 3)[1] == '1');
                    assert(c.subrange(0, 3)[2] == ':');
                }
            }
            return Err(CatalogValidationError::MalformedCursor);
        }
        assert(is_prefix(keyset_prefix(), c)) by {
            assert(c.subrange(0, 3) =~= keyset_prefix());
        }
        let ghost e = c.subrange(3, n as int);
        let i = match find_colon(&cs, 3) {
            Some(i) => i,
            None => {
                proof {
                    assert forall|k: int| 0 <= k < e.len() implies e[k] != ':' by {
                        assert(e[k] == c[k + 3]);
                    }
                    lemma_index_of_none(e, ':');
                }
                return Err(CatalogValidationError::MalformedCursor);
            },
        };
        proof {
            assert forall|k: int| 0 <= k < i - 3 implies e[k] != ':' by {
                assert(e[k] == c[k + 3]);
            }
            assert(e[i - 3] == c[i as int]);
            lemma_index_of_first(e, ':', i - 3);
        }
        let ghost e2 = e.subrange(i - 3 + 1, e.len() as int);
        assert(e2 =~= c.subrange(i + 1, n as int));
        let j = match find_colon(&cs, i + 1) {
            Some(j) => j,
            None => {
                proof {
                    assert forall|k: int| 0 <= k < e2.len() implies e2[k] != ':' by {
                        assert(e2[k] == c[k + i + 1]);
                    }
                    lemma_index_of_none(e2, ':');
                }
                return Err(CatalogValidationError::MalformedCursor);
            },
        };
        proof {
            assert forall|k: int| 0 <= k < j - (i + 1) implies e2[k] != ':' by {
                assert(e2[k] == c[k + i + 1]);
            }
            assert(e2[j - (i + 1)] == c[j as int]);
            lemma_index_of_first(e2, ':', j - (i + 1));
        }
        assert(e.subrange(0, i - 3) =~= c.subrange(3, i as int));
        assert(e2.subrange(0, j - (i + 1)) =~= c.subrange(i + 1, j as int));
        let sort_chars = sub_chars(&cs, 3, i);
        let tie_chars = sub_chars(&cs, i + 1, j);
        let sort_length = match parse_usize(sort_chars.as_slice()) {
            Some(v) => v,
            None => {
                return Err(CatalogValidationError::MalformedCursor);
            },
        };
        let tie_length = match parse_usize(tie_chars.as_slice()) {
            Some(v) => v,
            None => {
                return Err(CatalogValidationError::MalformedCursor);
            },
        };
        if tie_length == 0 {
            return Err(CatalogValidationError::EmptyCursorTieBreaker);
        }
        if sort_length > usize::MAX - tie_length {
            return Err(CatalogValidationError::MalformedCursor);
        }
        let payload_length = sort_length + tie_length;
        let k = j + 1;
        let ghost head = c.subrange(0, k as int);
        let ghost payload = c.subrange(k as int, n as int);
        assert(payload =~= e2.subrange(j - (i + 1) + 1, e2.len() as int));
        proof {
            lemma_parse_ascii(c.subrange(3, i as int));
            lemma_parse_ascii(c.subrange(i + 1, j as int));
            assert(all_ascii(head)) by {
                assert forall|x: int| 0 <= x < head.len() implies #[trigger] is_ascii_char(
                    head[x],
                ) by {
                    if x < 3 {
                    } else if x < i {
                        assert(head[x] == c.subrange(3, i as int)[x - 3]);
                    } else if x == i || x == j {
                    } else {
                        assert(head[x] == c.subrange(i + 1, j as int)[x - (i + 1)]);
                    }
                }
            }
            assert(c =~= head + payload);
            lemma_encode_ascii_len(head);
            lemma_encode_concat(head, payload);
            lemma_boundary_at_concat(head, payload);
        }
        let (_, rest) = s.split_at(k);
        assert(rest.spec_bytes() =~= encode_utf8(payload));
        assert(rest@ == payload) by {
            assert(decode_utf8(rest.spec_bytes()) == rest@);
        }
        if byte_len(rest) != payload_length || !rest.is_char_boundary(sort_length) {
            return Err(CatalogValidationError::MalformedCursor);
        }
        let (a, b) = rest.split_at(sort_length);
        proof {
            let bytes = encode_utf8(payload);
            assert(a@ == decode_utf8(a.spec_bytes()));
            assert(b@ == decode_utf8(b.spec_bytes()));
            assert(a.spec_bytes() =~= bytes.subrange(0, sort_length as int));
            assert(b.spec_bytes() =~= bytes.subrange(sort_length as int, bytes.len() as int));
        }
        Ok((a, b))
    }
}

/// The first position at or after `from` that holds `':'`.
fn find_colon(cs: &Vec<char>, from: usize) -> (r: Option<usize>)
    requires
        from <= cs@.len(),
    ensures
        match r {
            Some(i) => from <= i < cs@.len() && cs@[i as int] == ':' && forall|k: int|
                from <= k < i ==> cs@[k] != ':',
            None => forall|k: int| from <= k < cs@.len() ==> cs@[k] != ':',
        },
{
    let mut i = from;
    while i < cs.len()
        invariant
            from <= i <= cs@.len(),
            forall|k: int| from <= k < i ==> cs@[k] != ':',
        decreases cs@.len() - i,
    {
        if cs[i] == ':' {
            return Some(i);
        }
        i = i + 1;
    }
    None
}


/// The position of the first `c` in `cs`, if any.
pub fn find_char(cs: &Vec<char>, c: char) -> (r: Option<usize>)
    ensures
        match r {
            Some(i) => index_of(cs@, c) == i && i < cs@.len(),
            None => index_of(cs@, c) == -1,
        },
{
    let mut i: usize = 0;
    while i < cs.len()
        invariant
            i <= cs@.len(),
            forall|k: int| 0 <= k < i ==> cs@[k] != c,
        decreases cs@.len() - i,
    {
        if cs[i] == c {
            proof {
                lemma_index_of_first(cs@, c, i as int);
            }
            return Some(i);
        }
        i = i + 1;
    }
    proof {
        lemma_index_of_none(cs@, c);
    }
    None
}

} // verus!
