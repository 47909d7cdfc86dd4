//! Character-level string helpers with specifications over `Seq<char>`.
use vstd::prelude::*;
use vstd::string::*;
use vstd::utf8::*;

verus! {

// ---------------------------------------------------------------------------
// Specifications
// ---------------------------------------------------------------------------

/// The character for a decimal digit value `d` (`0 <= d < 10`).
pub open spec fn digit_char(d: int) -> char {
    ((d + 48) as u8) as char
}

pub open spec fn is_ascii_digit(c: char) -> bool {
    '0' <= c <= '9'
}

pub open spec fn all_digits(s: Seq<char>) -> bool {
    forall|i: int| 0 <= i < s.len() ==> #[trigger] is_ascii_digit(s[i])
}

/// Decimal rendering of a natural number, as `Display` prints unsigned integers.
pub open spec fn decimal(n: nat) -> Seq<char>
    decreases n,
{
    if n < 10 {
        seq![digit_char(n as int)]
    } else {
        decimal(n / 10).push(digit_char((n % 10) as int))
    }
}

/// Value of a string of decimal digits.
pub open spec fn digits_value(s: Seq<char>) -> nat
    decreases s.len(),
{
    if s.len() == 0 {
        0
    } else {
        digits_value(s.drop_last()) * 10 + ((s.last() as int - 48) as nat)
    }
}

/// What `str::parse::<usize>` accepts: an optional `+`, then one or more ASCII
/// digits whose value fits in `usize`.
pub open spec fn parse_usize_spec(s: Seq<char>) -> Option<usize> {
    let d = if s.len() > 0 && s[0] == '+' {
        s.drop_first()
    } else {
        s
    };
    if d.len() > 0 && all_digits(d) && digits_value(d) <= usize::MAX {
        Some(digits_value(d) as usize)
    } else {
        None
    }
}

/// What `str::parse::<u64>` accepts: an optional `+`, then one or more ASCII
/// digits whose value fits in `u64`.
pub open spec fn parse_u64_spec(s: Seq<char>) -> Option<u64> {
    let d = if s.len() > 0 && s[0] == '+' {
        s.drop_first()
    } else {
        s
    };
    if d.len() > 0 && all_digits(d) && digits_value(d) <= u64::MAX {
        Some(digits_value(d) as u64)
    } else {
        None
    }
}

pub open spec fn ascii_lower_char(c: char) -> char {
    if 'A' <= c <= 'Z' {
        ((c as u32) + 32) as char
    } else {
        c
    }
}

pub open spec fn ascii_upper_char(c: char) -> char {
    if 'a' <= c <= 'z' {
        ((c as u32) - 32) as char
    } else {
        c
    }
}

pub open spec fn ascii_lower(s: Seq<char>) -> Seq<char> {
    s.map_values(|c: char| ascii_lower_char(c))
}

pub open spec fn ascii_upper(s: Seq<char>) -> Seq<char> {
    s.map_values(|c: char| ascii_upper_char(c))
}

/// `str::eq_ignore_ascii_case`.
pub open spec fn eq_ignore_ascii_case(a: Seq<char>, b: Seq<char>) -> bool {
    ascii_lower(a) == ascii_lower(b)
}

/// Whether `char::is_whitespace` holds of a character: the Unicode
/// `White_Space` property, which these 25 code points have.
pub open spec fn char_is_whitespace(c: char) -> bool {
    let u = c as u32;
    (0x09 <= u && u <= 0x0d) || u == 0x20 || u == 0x85 || u == 0xa0 || u == 0x1680 || (0x2000 <= u
        && u <= 0x200a) || u == 0x2028 || u == 0x2029 || u == 0x202f || u == 0x205f || u == 0x3000
}

pub open spec fn trim_start(s: Seq<char>) -> Seq<char>
    decreases s.len(),
{
    if s.len() > 0 && char_is_whitespace(s[0]) {
        trim_start(s.drop_first())
    } else {
        s
    }
}

pub open spec fn trim_end(s: Seq<char>) -> Seq<char>
    decreases s.len(),
{
    if s.len() > 0 && char_is_whitespace(s.last()) {
        trim_end(s.drop_last())
    } else {
        s
    }
}

/// `str::trim`: both ends stripped of whitespace.
pub open spec fn trim(s: Seq<char>) -> Seq<char> {
    trim_end(trim_start(s))
}

/// `s.replace(c, rep)` for a single character pattern.
pub open spec fn replace_char(s: Seq<char>, c: char, rep: Seq<char>) -> Seq<char>
    decreases s.len(),
{
    if s.len() == 0 {
        seq![]
    } else {
        replace_char(s.drop_last(), c, rep) + (if s.last() == c {
            rep
        } else {
            seq![s.last()]
        })
    }
}

/// `s` with each doubled `c` read as one `c`, from the end: the inverse of
/// doubling every `c`.
pub open spec fn undouble(s: Seq<char>, c: char) -> Seq<char>
    decreases s.len(),
{
    if s.len() == 0 {
        seq![]
    } else if s.len() >= 2 && s.last() == c && s[s.len() - 2] == c {
        undouble(s.subrange(0, s.len() - 2), c).push(c)
    } else {
        undouble(s.drop_last(), c).push(s.last())
    }
}

/// Doubling every `c` is undone by `undouble`.
pub proof fn lemma_undouble_replace(v: Seq<char>, c: char)
    ensures
        undouble(replace_char(v, c, seq![c, c]), c) == v,
    decreases v.len(),
{
    if v.len() > 0 {
        let init = v.drop_last();
        lemma_undouble_replace(init, c);
        let r = replace_char(init, c, seq![c, c]);
        if v.last() == c {
            let s = r + seq![c, c];
            assert(replace_char(v, c, seq![c, c]) == s);
            assert(s.subrange(0, s.len() - 2) =~= r);
            assert(v =~= init.push(c));
        } else {
            let s = r + seq![v.last()];
            assert(replace_char(v, c, seq![c, c]) == s);
            assert(s.drop_last() =~= r);
            assert(v =~= init.push(v.last()));
        }
    }
}

/// The text between an opening of `open` characters and a one-character
/// close, with doubled `c` read as one.
pub open spec fn unwrap_escaped(q: Seq<char>, open: int, c: char) -> Seq<char> {
    undouble(q.subrange(open, q.len() - 1), c)
}

/// Wrapping a value with its quote character doubled is undone by
/// `unwrap_escaped`, so distinct values never wrap alike.
pub proof fn lemma_unwrap_escaped(open: Seq<char>, close: char, c: char, a: Seq<char>, b: Seq<char>)
    ensures
        unwrap_escaped(open + replace_char(a, c, seq![c, c]) + seq![close], open.len() as int, c) == a,
        (open + replace_char(a, c, seq![c, c]) + seq![close] == open + replace_char(b, c, seq![c, c])
            + seq![close]) <==> a == b,
{
    let qa = open + replace_char(a, c, seq![c, c]) + seq![close];
    let qb = open + replace_char(b, c, seq![c, c]) + seq![close];
    assert(qa.subrange(open.len() as int, qa.len() - 1) =~= replace_char(a, c, seq![c, c]));
    assert(qb.subrange(open.len() as int, qb.len() - 1) =~= replace_char(b, c, seq![c, c]));
    lemma_undouble_replace(a, c);
    lemma_undouble_replace(b, c);
}

/// `list.join(sep)`.
pub open spec fn join(list: Seq<Seq<char>>, sep: Seq<char>) -> Seq<char>
    decreases list.len(),
{
    if list.len() == 0 {
        seq![]
    } else if list.len() == 1 {
        list[0]
    } else {
        join(list.drop_last(), sep) + sep + list.last()
    }
}

/// The views of a sequence of strings.
pub open spec fn views(v: Seq<String>) -> Seq<Seq<char>> {
    v.map_values(|s: String| s@)
}

pub open spec fn opt_view(o: Option<String>) -> Option<Seq<char>> {
    match o {
        Some(s) => Some(s@),
        None => None,
    }
}

pub open spec fn is_prefix(p: Seq<char>, s: Seq<char>) -> bool {
    p.len() <= s.len() && s.subrange(0, p.len() as int) == p
}

pub open spec fn is_suffix(p: Seq<char>, s: Seq<char>) -> bool {
    p.len() <= s.len() && s.subrange(s.len() - p.len(), s.len() as int) == p
}

// ---------------------------------------------------------------------------
// Lemmas
// ---------------------------------------------------------------------------

pub proof fn lemma_decimal_digits(n: nat)
    ensures
        all_digits(decimal(n)),
        decimal(n).len() > 0,
        digits_value(decimal(n)) == n,
    decreases n,
{
    let d = decimal(n);
    if n < 10 {
        assert(d.drop_last() =~= Seq::<char>::empty());
        assert(d.last() as int == n + 48);
        assert(is_ascii_digit(d[0]));
        assert(digits_value(d.drop_last()) == 0);
        assert(digits_value(d) == digits_value(d.drop_last()) * 10 + ((d.last() as int - 48) as nat));
    } else {
        lemma_decimal_digits(n / 10);
        assert(d.drop_last() =~= decimal(n / 10));
        assert(d.last() as int == (n % 10) + 48);
        assert(is_ascii_digit(d.last()));
        assert forall|i: int| 0 <= i < d.len() implies #[trigger] is_ascii_digit(d[i]) by {
            if i < d.len() - 1 {
                assert(d[i] == decimal(n / 10)[i]);
            }
        }
        assert(n == (n / 10) * 10 + n % 10) by (nonlinear_arith);
        assert(digits_value(d) == digits_value(d.drop_last()) * 10 + ((d.last() as int - 48) as nat));
    }
}

pub proof fn lemma_digits_value_monotone(s: Seq<char>, i: int)
    requires
        0 <= i <= s.len(),
        all_digits(s),
    ensures
        digits_value(s.subrange(0, i)) <= digits_value(s),
    decreases s.len() - i,
{
    if i < s.len() {
        lemma_digits_value_monotone(s.drop_last(), if i < s.len() { i } else { i - 1 });
        assert(s.drop_last().subrange(0, i) =~= s.subrange(0, i));
        assert(all_digits(s.drop_last())) by {
            assert forall|k: int| 0 <= k < s.drop_last().len() implies #[trigger] is_ascii_digit(
                s.drop_last()[k],
            ) by {
                assert(is_ascii_digit(s[k]));
            }
        }
    } else {
        assert(s.subrange(0, i) =~= s);
    }
}

pub proof fn lemma_parse_decimal(n: usize)
    ensures
        parse_usize_spec(decimal(n as nat)) == Some(n),
{
    lemma_decimal_digits(n as nat);
    assert(decimal(n as nat)[0] != '+') by {
        assert(is_ascii_digit(decimal(n as nat)[0]));
    }
}

pub proof fn lemma_decimal_has_no(n: nat, c: char)
    requires
        !is_ascii_digit(c),
    ensures
        !decimal(n).contains(c),
{
    lemma_decimal_digits(n);
    if decimal(n).contains(c) {
        let i = choose|i: int| 0 <= i < decimal(n).len() && decimal(n)[i] == c;
        assert(is_ascii_digit(decimal(n)[i]));
    }
}

// ---------------------------------------------------------------------------
// Executable helpers
// ---------------------------------------------------------------------------

/// Appends one character to a `String` (`String::push`).
#[verifier::external_body]
pub(crate) fn push_char(s: &mut String, c: char)
    ensures
        final(s)@ == old(s)@.push(c),
{
    s.push(c);
}

/// `char::is_whitespace`.
pub fn is_whitespace(c: char) -> (r: bool)
    ensures
        r == char_is_whitespace(c),
{
    let u = c as u32;
    (0x09 <= u && u <= 0x0d) || u == 0x20 || u == 0x85 || u == 0xa0 || u == 0x1680 || (0x2000 <= u
        && u <= 0x200a) || u == 0x2028 || u == 0x2029 || u == 0x202f || u == 0x205f || u == 0x3000
}

/// A text that starts and ends with a character other than whitespace is
/// its own trim.
pub proof fn lemma_trim_unchanged(s: Seq<char>)
    requires
        s.len() > 0,
        !char_is_whitespace(s[0]),
        !char_is_whitespace(s.last()),
    ensures
        trim(s) == s,
{
    assert(trim_start(s) == s);
    assert(trim_end(s) == s);
}

/// The characters of a string slice, in order.
pub fn chars_of(s: &str) -> (r: Vec<char>)
    ensures
        r@ == s@,
{
    let n = s.unicode_len();
    let mut r: Vec<char> = Vec::new();
    let mut i: usize = 0;
    while i < n
        invariant
            n == s@.len(),
            i <= n,
            r@ == s@.subrange(0, i as int),
        decreases n - i,
    {
        r.push(s.get_char(i));
        i = i + 1;
    }
    r
}

/// A `String` holding exactly the given characters.
pub fn string_from_chars(cs: &[char]) -> (r: String)
    ensures
        r@ == cs@,
{
    let mut r = String::new();
    let mut i: usize = 0;
    while i < cs.len()
        invariant
            i <= cs@.len(),
            r@ == cs@.subrange(0, i as int),
        decreases cs@.len() - i,
    {
        push_char(&mut r, cs[i]);
        i = i + 1;
    }
    r
}

/// Appends `t` to `s`.
pub fn push_str(s: &mut String, t: &str)
    ensures
        final(s)@ == old(s)@ + t@,
{
    s.append(t);
}

/// A fresh `String` with the characters of `t`.
pub fn owned(t: &str) -> (r: String)
    ensures
        r@ == t@,
{
    t.to_owned()
}

/// Whether two string slices hold the same characters.
pub fn str_eq(a: &str, b: &str) -> (r: bool)
    ensures
        r == (a@ == b@),
{
    a.to_owned() == b.to_owned()
}

/// Whether a string slice is empty.
pub fn is_empty_str(s: &str) -> (r: bool)
    ensures
        r == (s@.len() == 0),
{
    s.is_empty()
}

/// Clones a vector of strings.
pub fn clone_strings(v: &Vec<String>) -> (r: Vec<String>)
    ensures
        r@ == v@,
{
    let mut r: Vec<String> = Vec::new();
    let mut i: usize = 0;
    while i < v.len()
        invariant
            i <= v@.len(),
            r@ == v@.subrange(0, i as int),
        decreases v@.len() - i,
    {
        r.push(v[i].clone());
        i = i + 1;
    }
    r
}

/// Clones an optional string.
pub fn clone_opt(o: &Option<String>) -> (r: Option<String>)
    ensures
        r == *o,
{
    match o {
        Some(s) => Some(s.clone()),
        None => None,
    }
}

/// Appends the decimal rendering of `n`.
pub fn push_decimal(s: &mut String, n: u64)
    ensures
        final(s)@ == old(s)@ + decimal(n as nat),
    decreases n,
{
    if n >= 10 {
        push_decimal(s, n / 10);
    }
    let d = (n % 10) as u8;
    push_char(s, (48u8 + d) as char);
    assert(decimal(n as nat) == if n < 10 {
        seq![digit_char(n as int)]
    } else {
        decimal((n / 10) as nat).push(digit_char((n % 10) as int))
    });
}

/// Appends the decimal rendering of a 128-bit `n`.
pub fn push_decimal_u128(s: &mut String, n: u128)
    ensures
        final(s)@ == old(s)@ + decimal(n as nat),
    decreases n,
{
    if n >= 10 {
        push_decimal_u128(s, n / 10);
    }
    let d = (n % 10) as u8;
    push_char(s, (48u8 + d) as char);
    assert(decimal(n as nat) == if n < 10 {
        seq![digit_char(n as int)]
    } else {
        decimal((n / 10) as nat).push(digit_char((n % 10) as int))
    });
}

/// The decimal rendering of `n`, as `n.to_string()` gives it.
pub fn decimal_string(n: u64) -> (r: String)
    ensures
        r@ == decimal(n as nat),
{
    let mut s = String::new();
    push_decimal(&mut s, n);
    assert(s@ =~= decimal(n as nat));
    s
}

/// Decimal rendering of an integer, as `Display` prints signed integers.
pub open spec fn signed_decimal(i: int) -> Seq<char> {
    if i < 0 {
        seq!['-'] + decimal((-i) as nat)
    } else {
        decimal(i as nat)
    }
}

/// The decimal rendering of `n`, as `n.to_string()` gives it.
pub fn signed_decimal_string(n: i64) -> (r: String)
    ensures
        r@ == signed_decimal(n as int),
{
    let mut s = String::new();
    if n < 0 {
        push_char(&mut s, '-');
        let magnitude: u64 = if n == i64::MIN {
            9223372036854775808u64
        } else {
            (-n) as u64
        };
        push_decimal(&mut s, magnitude);
        assert(s@ =~= seq!['-'] + decimal((-n) as nat));
    } else {
        push_decimal(&mut s, n as u64);
        assert(s@ =~= decimal(n as nat));
    }
    s
}

/// What `str::parse::<i32>` accepts: an optional sign, then one or more
/// ASCII digits whose signed value fits in `i32`.
pub open spec fn parse_i32_spec(s: Seq<char>) -> Option<i32> {
    if s.len() > 0 && s[0] == '-' {
        let d = s.drop_first();
        if d.len() > 0 && all_digits(d) && digits_value(d) <= 2147483648 {
            Some((-(digits_value(d) as int)) as i32)
        } else {
            None
        }
    } else {
        let d = if s.len() > 0 && s[0] == '+' {
            s.drop_first()
        } else {
            s
        };
        if d.len() > 0 && all_digits(d) && digits_value(d) <= 2147483647 {
            Some(digits_value(d) as i32)
        } else {
            None
        }
    }
}

/// `str::parse::<i32>`.
pub fn parse_i32(s: &str) -> (r: Option<i32>)
    ensures
        r == parse_i32_spec(s@),
{
    let cs = chars_of(s);
    if cs.len() > 0 && cs[0] == '-' {
        let rest = sub_chars(&cs, 1, cs.len());
        assert(rest@ =~= s@.drop_first());
        if rest.len() == 0 || rest[0] == '+' {
            proof {
                if rest@.len() > 0 {
                    assert(!is_ascii_digit(rest@[0]));
                }
            }
            return None;
        }
        match parse_usize(rest.as_slice()) {
            Some(v) => {
                if v <= 2147483648 {
                    let w: i64 = -(v as i64);
                    Some(w as i32)
                } else {
                    None
                }
            },
            None => None,
        }
    } else {
        match parse_usize(cs.as_slice()) {
            Some(v) => {
                if v <= 2147483647 {
                    Some(v as i32)
                } else {
                    None
                }
            },
            None => None,
        }
    }
}

/// `str::parse::<usize>` on a character slice.
pub fn parse_usize(s: &[char]) -> (r: Option<usize>)
    ensures
        r == parse_usize_spec(s@),
{
    let start: usize = if s.len() > 0 && s[0] == '+' {
        1
    } else {
        0
    };
    let ghost d = s@.subrange(start as int, s@.len() as int);
    assert(d =~= (if s@.len() > 0 && s@[0] == '+' {
        s@.drop_first()
    } else {
        s@
    }));
    if start >= s.len() {
        assert(d.len() == 0);
        return None;
    }
    let mut value: usize = 0;
    let mut i: usize = start;
    while i < s.len()
        invariant
            start <= i <= s@.len(),
            start == (if s@.len() > 0 && s@[0] == '+' { 1usize } else { 0usize }),
            d == s@.subrange(start as int, s@.len() as int),
            d == (if s@.len() > 0 && s@[0] == '+' { s@.drop_first() } else { s@ }),
            all_digits(d.subrange(0, i - start)),
            value as nat == digits_value(d.subrange(0, i - start)),
        decreases s@.len() - i,
    {
        let c = s[i];
        if !(c >= '0' && c <= '9') {
            assert(!all_digits(d)) by {
                assert(!is_ascii_digit(d[i - start]));
            }
            return None;
        }
        let ghost prefix = d.subrange(0, i + 1 - start);
        assert(prefix.drop_last() =~= d.subrange(0, i - start));
        assert(prefix.last() == c);
        assert(all_digits(prefix)) by {
            assert forall|k: int| 0 <= k < prefix.len() implies #[trigger] is_ascii_digit(
                prefix[k],
            ) by {
                if k < prefix.len() - 1 {
                    assert(prefix[k] == d.subrange(0, i - start)[k]);
                }
            }
        }
        let digit = (c as u32 - 48) as usize;
        if value > (usize::MAX - digit) / 10 {
            proof {
                assert(value * 10 + digit > usize::MAX) by (nonlinear_arith)
                    requires
                        value > (usize::MAX - digit) / 10,
                        digit <= 9,
                ;
                assert(digits_value(prefix) == value * 10 + digit);
                if all_digits(d) {
                    lemma_digits_value_monotone(d, i + 1 - start);
                }
            }
            return None;
        }
        assert(value * 10 + digit <= usize::MAX) by (nonlinear_arith)
            requires
                value <= (usize::MAX - digit) / 10,
                digit <= 9,
        ;
        assert(digits_value(prefix) == value * 10 + digit);
        value = value * 10 + digit;
        i = i + 1;
    }
    assert(d.subrange(0, i - start) =~= d);
    Some(value)
}

/// `str::parse::<u64>` on a character slice.
pub fn parse_u64(s: &[char]) -> (r: Option<u64>)
    ensures
        r == parse_u64_spec(s@),
{
    let start: usize = if s.len() > 0 && s[0] == '+' {
        1
    } else {
        0
    };
    let ghost d = s@.subrange(start as int, s@.len() as int);
    assert(d =~= (if s@.len() > 0 && s@[0] == '+' {
        s@.drop_first()
    } else {
        s@
    }));
    if start >= s.len() {
        assert(d.len() == 0);
        return None;
    }
    let mut value: u64 = 0;
    let mut i: usize = start;
    while i < s.len()
        invariant
            start <= i <= s@.len(),
            start == (if s@.len() > 0 && s@[0] == '+' { 1usize } else { 0usize }),
            d == s@.subrange(start as int, s@.len() as int),
            d == (if s@.len() > 0 && s@[0] == '+' { s@.drop_first() } else { s@ }),
            all_digits(d.subrange(0, i - start)),
            value as nat == digits_value(d.subrange(0, i - start)),
        decreases s@.len() - i,
    {
        let c = s[i];
        if !(c >= '0' && c <= '9') {
            assert(!all_digits(d)) by {
                assert(!is_ascii_digit(d[i - start]));
            }
            return None;
        }
        let ghost prefix = d.subrange(0, i + 1 - start);
        assert(prefix.drop_last() =~= d.subrange(0, i - start));
        assert(prefix.last() == c);
        assert(all_digits(prefix)) by {
            assert forall|k: int| 0 <= k < prefix.len() implies #[trigger] is_ascii_digit(
                prefix[k],
            ) by {
                if k < prefix.len() - 1 {
                    assert(prefix[k] == d.subrange(0, i - start)[k]);
                }
            }
        }
        let digit = (c as u32 - 48) as u64;
        if value > (u64::MAX - digit) / 10 {
            proof {
                assert(value * 10 + digit > u64::MAX) by (nonlinear_arith)
                    requires
                        value > (u64::MAX - digit) / 10,
                        digit <= 9,
                ;
                assert(digits_value(prefix) == value * 10 + digit);
                if all_digits(d) {
                    lemma_digits_value_monotone(d, i + 1 - start);
                }
            }
            return None;
        }
        assert(value * 10 + digit <= u64::MAX) by (nonlinear_arith)
            requires
                value <= (u64::MAX - digit) / 10,
                digit <= 9,
        ;
        assert(digits_value(prefix) == value * 10 + digit);
        value = value * 10 + digit;
        i = i + 1;
    }
    assert(d.subrange(0, i - start) =~= d);
    Some(value)
}

/// What `str::parse::<i64>` accepts: an optional sign, then one or more
/// ASCII digits whose signed value fits in `i64`.
pub open spec fn parse_i64_spec(s: Seq<char>) -> Option<i64> {
    if s.len() > 0 && s[0] == '-' {
        let d = s.drop_first();
        if d.len() > 0 && all_digits(d) && digits_value(d) <= 9223372036854775808 {
            Some((-(digits_value(d) as int)) as i64)
        } else {
            None
        }
    } else {
        let d = if s.len() > 0 && s[0] == '+' {
            s.drop_first()
        } else {
            s
        };
        if d.len() > 0 && all_digits(d) && digits_value(d) <= 9223372036854775807 {
            Some(digits_value(d) as i64)
        } else {
            None
        }
    }
}

/// `str::parse::<i64>`.
pub fn parse_i64(s: &str) -> (r: Option<i64>)
    ensures
        r == parse_i64_spec(s@),
{
    let cs = chars_of(s);
    if cs.len() > 0 && cs[0] == '-' {
        let rest = sub_chars(&cs, 1, cs.len());
        assert(rest@ =~= s@.drop_first());
        if rest.len() == 0 || rest[0] == '+' {
            proof {
                if rest@.len() > 0 {
                    assert(!is_ascii_digit(rest@[0]));
                }
            }
            return None;
        }
        match parse_u64(rest.as_slice()) {
            Some(v) => {
                if v < 9223372036854775808u64 {
                    Some(-(v as i64))
                } else if v == 9223372036854775808u64 {
                    Some(i64::MIN)
                } else {
                    None
                }
            },
            None => None,
        }
    } else {
        match parse_u64(cs.as_slice()) {
            Some(v) => {
                if v <= 9223372036854775807u64 {
                    Some(v as i64)
                } else {
                    None
                }
            },
            None => None,
        }
    }
}

/// `str::trim`, returning an owned string.
pub fn trim_str(s: &str) -> (r: String)
    ensures
        r@ == trim(s@),
{
    let cs = chars_of(s);
    let n = cs.len();
    let mut lo: usize = 0;
    assert(cs@.subrange(0, n as int) =~= cs@);
    while lo < n && is_whitespace(cs[lo])
        invariant
            n == cs@.len(),
            lo <= n,
            trim_start(cs@) == trim_start(cs@.subrange(lo as int, n as int)),
        decreases n - lo,
    {
        assert(cs@.subrange(lo as int + 1, n as int) =~= cs@.subrange(lo as int, n as int).drop_first());
        lo = lo + 1;
    }
    let ghost t = cs@.subrange(lo as int, n as int);
    assert(trim_start(cs@) == t);
    let mut hi: usize = n;
    while hi > lo && is_whitespace(cs[hi - 1])
        invariant
            lo <= hi <= n,
            n == cs@.len(),
            trim_end(t) == trim_end(cs@.subrange(lo as int, hi as int)),
        decreases hi - lo,
    {
        assert(cs@.subrange(lo as int, hi - 1) =~= cs@.subrange(lo as int, hi as int).drop_last());
        hi = hi - 1;
    }
    let mut out: Vec<char> = Vec::new();
    let mut k: usize = lo;
    while k < hi
        invariant
            lo <= k <= hi <= n,
            n == cs@.len(),
            out@ == cs@.subrange(lo as int, k as int),
        decreases hi - k,
    {
        out.push(cs[k]);
        k = k + 1;
    }
    string_from_chars(out.as_slice())
}

/// `s.to_ascii_lowercase()`.
pub fn to_ascii_lower(s: &str) -> (r: String)
    ensures
        r@ == ascii_lower(s@),
{
    let cs = chars_of(s);
    let mut out: Vec<char> = Vec::new();
    let mut i: usize = 0;
    while i < cs.len()
        invariant
            i <= cs@.len(),
            out@ =~= ascii_lower(cs@.subrange(0, i as int)),
        decreases cs@.len() - i,
    {
        let c = cs[i];
        let l = if c >= 'A' && c <= 'Z' {
            ((c as u8) + 32) as char
        } else {
            c
        };
        out.push(l);
        i = i + 1;
    }
    assert(cs@.subrange(0, cs@.len() as int) =~= cs@);
    string_from_chars(out.as_slice())
}

/// `s.to_ascii_uppercase()` for one character.
pub fn upper_char(c: char) -> (r: char)
    ensures
        r == ascii_upper_char(c),
{
    if c >= 'a' && c <= 'z' {
        ((c as u8) - 32) as char
    } else {
        c
    }
}

/// `s.to_ascii_uppercase()`.
pub fn to_ascii_upper(s: &str) -> (r: String)
    ensures
        r@ == ascii_upper(s@),
{
    let cs = chars_of(s);
    let mut out: Vec<char> = Vec::new();
    let mut i: usize = 0;
    while i < cs.len()
        invariant
            i <= cs@.len(),
            out@ =~= ascii_upper(cs@.subrange(0, i as int)),
        decreases cs@.len() - i,
    {
        out.push(upper_char(cs[i]));
        i = i + 1;
    }
    assert(cs@.subrange(0, cs@.len() as int) =~= cs@);
    string_from_chars(out.as_slice())
}

/// Whether `s` ends with `p`.
pub fn ends_with(s: &str, p: &str) -> (r: bool)
    ensures
        r == is_suffix(p@, s@),
{
    let cs = chars_of(s);
    let ps = chars_of(p);
    if ps.len() > cs.len() {
        return false;
    }
    let off = cs.len() - ps.len();
    let mut i: usize = 0;
    while i < ps.len()
        invariant
            cs@ == s@,
            ps@ == p@,
            off == cs@.len() - ps@.len(),
            i <= ps@.len(),
            forall|k: int| 0 <= k < i ==> cs@[off + k] == ps@[k],
        decreases ps@.len() - i,
    {
        if cs[off + i] != ps[i] {
            assert(cs@.subrange(off as int, cs@.len() as int)[i as int] != ps@[i as int]);
            return false;
        }
        i = i + 1;
    }
    assert(cs@.subrange(off as int, cs@.len() as int) =~= ps@);
    true
}

/// `a.eq_ignore_ascii_case(b)`.
pub fn eq_ignore_case(a: &str, b: &str) -> (r: bool)
    ensures
        r == eq_ignore_ascii_case(a@, b@),
{
    let la = to_ascii_lower(a);
    let lb = to_ascii_lower(b);
    la == lb
}

/// `s.replace(c, rep)` for a single character pattern.
pub fn replace_char_str(s: &str, c: char, rep: &str) -> (r: String)
    ensures
        r@ == replace_char(s@, c, rep@),
{
    let cs = chars_of(s);
    let mut out = String::new();
    let mut i: usize = 0;
    while i < cs.len()
        invariant
            i <= cs@.len(),
            out@ == replace_char(cs@.subrange(0, i as int), c, rep@),
        decreases cs@.len() - i,
    {
        assert(cs@.subrange(0, i + 1).drop_last() =~= cs@.subrange(0, i as int));
        if cs[i] == c {
            push_str(&mut out, rep);
        } else {
            push_char(&mut out, cs[i]);
            assert(out@ =~= replace_char(cs@.subrange(0, i as int), c, rep@) + seq![cs@[i as int]]);
        }
        i = i + 1;
    }
    assert(cs@.subrange(0, cs@.len() as int) =~= cs@);
    out
}

/// `list.join(sep)`.
pub fn join_strings(list: &Vec<String>, sep: &str) -> (r: String)
    ensures
        r@ == join(views(list@), sep@),
{
    let mut r = String::new();
    let mut i: usize = 0;
    while i < list.len()
        invariant
            i <= list@.len(),
            r@ == join(views(list@.subrange(0, i as int)), sep@),
        decreases list@.len() - i,
    {
        let ghost prev = views(list@.subrange(0, i as int));
        let ghost next = views(list@.subrange(0, i + 1));
        assert(next.drop_last() =~= prev);
        assert(next.last() == list@[i as int]@);
        if i > 0 {
            push_str(&mut r, sep);
        }
        push_str(&mut r, list[i].as_str());
        if i == 0 {
            assert(r@ =~= next[0]);
        }
        i = i + 1;
    }
    assert(list@.subrange(0, list@.len() as int) =~= list@);
    r
}

/// Whether `s` ends with character `c`.
pub fn ends_with_char(s: &str, c: char) -> (r: bool)
    ensures
        r == (s@.len() > 0 && s@.last() == c),
{
    let n = s.unicode_len();
    n > 0 && s.get_char(n - 1) == c
}

/// Whether `s` starts with `p`.
pub fn starts_with(s: &str, p: &str) -> (r: bool)
    ensures
        r == is_prefix(p@, s@),
{
    let cs = chars_of(s);
    let ps = chars_of(p);
    if ps.len() > cs.len() {
        return false;
    }
    let mut i: usize = 0;
    while i < ps.len()
        invariant
            cs@ == s@,
            ps@ == p@,
            ps@.len() <= cs@.len(),
            i <= ps@.len(),
            forall|k: int| 0 <= k < i ==> cs@[k] == ps@[k],
        decreases ps@.len() - i,
    {
        if cs[i] != ps[i] {
            assert(cs@.subrange(0, ps@.len() as int)[i as int] != ps@[i as int]);
            assert(cs@.subrange(0, ps@.len() as int) != ps@);
            return false;
        }
        i = i + 1;
    }
    assert(cs@.subrange(0, ps@.len() as int) =~= ps@);
    true
}

/// Whether `s` contains character `c`.
pub fn contains_char(s: &str, c: char) -> (r: bool)
    ensures
        r == s@.contains(c),
{
    let cs = chars_of(s);
    let mut i: usize = 0;
    while i < cs.len()
        invariant
            cs@ == s@,
            i <= cs@.len(),
            forall|k: int| 0 <= k < i ==> cs@[k] != c,
        decreases cs@.len() - i,
    {
        if cs[i] == c {
            assert(cs@[i as int] == c);
            return true;
        }
        i = i + 1;
    }
    false
}

/// The characters `cs[lo..hi]`.
pub fn sub_chars(cs: &Vec<char>, lo: usize, hi: usize) -> (r: Vec<char>)
    requires
        lo <= hi <= cs@.len(),
    ensures
        r@ == cs@.subrange(lo as int, hi as int),
{
    let mut r: Vec<char> = Vec::new();
    let mut k: usize = lo;
    while k < hi
        invariant
            lo <= k <= hi <= cs@.len(),
            r@ == cs@.subrange(lo as int, k as int),
        decreases hi - k,
    {
        r.push(cs[k]);
        k = k + 1;
    }
    r
}

/// The length of `s` in UTF-8 bytes (`str::len`).
pub fn byte_len(s: &str) -> (r: usize)
    ensures
        r == encode_utf8(s@).len(),
{
    let b = s.as_bytes();
    b.len()
}


/// `s.contains(p)` for a string pattern: `p` occurs somewhere in `s`.
pub open spec fn contains_seq(s: Seq<char>, p: Seq<char>) -> bool {
    exists|i: int| 0 <= i && i + p.len() <= s.len() && #[trigger] s.subrange(i, i + p.len()) == p
}

/// Whether `s` contains `p` (`str::contains` with a string pattern).
pub fn contains_str(s: &str, p: &str) -> (r: bool)
    ensures
        r == contains_seq(s@, p@),
{
    let cs = chars_of(s);
    let ps = chars_of(p);
    let n = ps.len();
    if n > cs.len() {
        return false;
    }
    if n == 0 {
        assert(s@.subrange(0int, 0int + p@.len()) =~= p@);
        return true;
    }
    let last = cs.len() - n;
    let mut i: usize = 0;
    while i <= last
        invariant
            cs@ == s@,
            ps@ == p@,
            n == ps@.len(),
            0 < n <= cs@.len(),
            last == cs@.len() - n,
            i <= last + 1,
            forall|j: int| 0 <= j < i ==> #[trigger] cs@.subrange(j, j + n) != ps@,
        decreases cs@.len() - i,
    {
        let mut k: usize = 0;
        let mut same = true;
        while k < n
            invariant
                i + n <= cs@.len(),
                n == ps@.len(),
                k <= n,
                same ==> forall|m: int| 0 <= m < k ==> cs@[i + m] == ps@[m],
                !same ==> cs@.subrange(i as int, i + n) != ps@,
            decreases n - k,
        {
            if cs[i + k] != ps[k] {
                assert(cs@.subrange(i as int, i + n)[k as int] != ps@[k as int]);
                same = false;
            }
            k = k + 1;
        }
        if same {
            assert(cs@.subrange(i as int, i + n) =~= ps@);
            return true;
        }
        i = i + 1;
    }
    assert forall|j: int| 0 <= j && j + ps@.len() <= s@.len() implies #[trigger] s@.subrange(
        j,
        j + ps@.len(),
    ) != p@ by {
        assert(j < i);
        assert(cs@.subrange(j, j + n) != ps@);
    }
    false
}

/// A character that would act on a terminal rather than print: the C0
/// controls other than newline and tab, DEL and the C1 controls.
pub open spec fn is_terminal_control(c: char) -> bool {
    ((c as u32) < 0x20 && c != '\n' && c != '\t') || (0x7f <= (c as u32) && (c as u32) < 0xa0)
}

/// The standard abbreviation of a control code.
pub open spec fn control_name(code: u32) -> Seq<char> {
    match code {
        0x00 => "NUL"@,
        0x01 => "SOH"@,
        0x02 => "STX"@,
        0x03 => "ETX"@,
        0x04 => "EOT"@,
        0x05 => "ENQ"@,
        0x06 => "ACK"@,
        0x07 => "BEL"@,
        0x08 => "BS"@,
        0x09 => "HT"@,
        0x0a => "LF"@,
        0x0b => "VT"@,
        0x0c => "FF"@,
        0x0d => "CR"@,
        0x0e => "SO"@,
        0x0f => "SI"@,
        0x10 => "DLE"@,
        0x11 => "DC1"@,
        0x12 => "DC2"@,
        0x13 => "DC3"@,
        0x14 => "DC4"@,
        0x15 => "NAK"@,
        0x16 => "SYN"@,
        0x17 => "ETB"@,
        0x18 => "CAN"@,
        0x19 => "EM"@,
        0x1a => "SUB"@,
        0x1b => "ESC"@,
        0x1c => "FS"@,
        0x1d => "GS"@,
        0x1e => "RS"@,
        0x1f => "US"@,
        0x7f => "DEL"@,
        0x80 => "PAD"@,
        0x81 => "HOP"@,
        0x82 => "BPH"@,
        0x83 => "NBH"@,
        0x84 => "IND"@,
        0x85 => "NEL"@,
        0x86 => "SSA"@,
        0x87 => "ESA"@,
        0x88 => "HTS"@,
        0x89 => "HTJ"@,
        0x8a => "VTS"@,
        0x8b => "PLD"@,
        0x8c => "PLU"@,
        0x8d => "RI"@,
        0x8e => "SS2"@,
        0x8f => "SS3"@,
        0x90 => "DCS"@,
        0x91 => "PU1"@,
        0x92 => "PU2"@,
        0x93 => "STS"@,
        0x94 => "CCH"@,
        0x95 => "MW"@,
        0x96 => "SPA"@,
        0x97 => "EPA"@,
        0x98 => "SOS"@,
        0x99 => "SGCI"@,
        0x9a => "SCI"@,
        0x9b => "CSI"@,
        0x9c => "ST"@,
        0x9d => "OSC"@,
        0x9e => "PM"@,
        _ => "APC"@,
    }
}

/// How a terminal control character is shown instead: its abbreviation
/// between angle brackets, as in `<ESC>`.
pub open spec fn control_shown(c: char) -> Seq<char> {
    seq!['<'] + control_name(c as u32) + seq!['>']
}

/// `s` with each terminal control character shown by its name.
pub open spec fn sanitized(s: Seq<char>) -> Seq<char>
    decreases s.len(),
{
    if s.len() == 0 {
        Seq::empty()
    } else if is_terminal_control(s.last()) {
        sanitized(s.drop_last()) + control_shown(s.last())
    } else {
        sanitized(s.drop_last()).push(s.last())
    }
}

fn control_name_str(code: u32) -> (r: &'static str)
    ensures
        r@ == control_name(code),
{
    match code {
        0x00 => "NUL",
        0x01 => "SOH",
        0x02 => "STX",
        0x03 => "ETX",
        0x04 => "EOT",
        0x05 => "ENQ",
        0x06 => "ACK",
        0x07 => "BEL",
        0x08 => "BS",
        0x09 => "HT",
        0x0a => "LF",
        0x0b => "VT",
        0x0c => "FF",
        0x0d => "CR",
        0x0e => "SO",
        0x0f => "SI",
        0x10 => "DLE",
        0x11 => "DC1",
        0x12 => "DC2",
        0x13 => "DC3",
        0x14 => "DC4",
        0x15 => "NAK",
        0x16 => "SYN",
        0x17 => "ETB",
        0x18 => "CAN",
        0x19 => "EM",
        0x1a => "SUB",
        0x1b => "ESC",
        0x1c => "FS",
        0x1d => "GS",
        0x1e => "RS",
        0x1f => "US",
        0x7f => "DEL",
        0x80 => "PAD",
        0x81 => "HOP",
        0x82 => "BPH",
        0x83 => "NBH",
        0x84 => "IND",
        0x85 => "NEL",
        0x86 => "SSA",
        0x87 => "ESA",
        0x88 => "HTS",
        0x89 => "HTJ",
        0x8a => "VTS",
        0x8b => "PLD",
        0x8c => "PLU",
        0x8d => "RI",
        0x8e => "SS2",
        0x8f => "SS3",
        0x90 => "DCS",
        0x91 => "PU1",
        0x92 => "PU2",
        0x93 => "STS",
        0x94 => "CCH",
        0x95 => "MW",
        0x96 => "SPA",
        0x97 => "EPA",
        0x98 => "SOS",
        0x99 => "SGCI",
        0x9a => "SCI",
        0x9b => "CSI",
        0x9c => "ST",
        0x9d => "OSC",
        0x9e => "PM",
        _ => "APC",
    }
}

/// Text without terminal control characters is left as it is.
proof fn lemma_sanitized_identity(s: Seq<char>)
    requires
        forall|i: int| 0 <= i < s.len() ==> !is_terminal_control(#[trigger] s[i]),
    ensures
        sanitized(s) == s,
    decreases s.len(),
{
    if s.len() > 0 {
        lemma_sanitized_identity(s.drop_last());
        assert(s.drop_last().push(s.last()) =~= s);
    }
}

proof fn lemma_control_shown_printable(c: char)
    ensures
        forall|i: int| 0 <= i < control_shown(c).len() ==> !is_terminal_control(#[trigger] control_shown(c)[i]),
{
    let n = control_name(c as u32);
    assert forall|i: int| 0 <= i < n.len() implies 0x20 <= (#[trigger] n[i]) as u32 && (n[i] as u32) < 0x7f by {
        reveal_strlit("NUL"); reveal_strlit("SOH"); reveal_strlit("STX"); reveal_strlit("ETX");
        reveal_strlit("EOT"); reveal_strlit("ENQ"); reveal_strlit("ACK"); reveal_strlit("BEL");
        reveal_strlit("BS"); reveal_strlit("HT"); reveal_strlit("LF"); reveal_strlit("VT");
        reveal_strlit("FF"); reveal_strlit("CR"); reveal_strlit("SO"); reveal_strlit("SI");
        reveal_strlit("DLE"); reveal_strlit("DC1"); reveal_strlit("DC2"); reveal_strlit("DC3");
        reveal_strlit("DC4"); reveal_strlit("NAK"); reveal_strlit("SYN"); reveal_strlit("ETB");
        reveal_strlit("CAN"); reveal_strlit("EM"); reveal_strlit("SUB"); reveal_strlit("ESC");
        reveal_strlit("FS"); reveal_strlit("GS"); reveal_strlit("RS"); reveal_strlit("US");
        reveal_strlit("DEL"); reveal_strlit("PAD"); reveal_strlit("HOP"); reveal_strlit("BPH");
        reveal_strlit("NBH"); reveal_strlit("IND"); reveal_strlit("NEL"); reveal_strlit("SSA");
        reveal_strlit("ESA"); reveal_strlit("HTS"); reveal_strlit("HTJ"); reveal_strlit("VTS");
        reveal_strlit("PLD"); reveal_strlit("PLU"); reveal_strlit("RI"); reveal_strlit("SS2");
        reveal_strlit("SS3"); reveal_strlit("DCS"); reveal_strlit("PU1"); reveal_strlit("PU2");
        reveal_strlit("STS"); reveal_strlit("CCH"); reveal_strlit("MW"); reveal_strlit("SPA");
        reveal_strlit("EPA"); reveal_strlit("SOS"); reveal_strlit("SGCI"); reveal_strlit("SCI");
        reveal_strlit("CSI"); reveal_strlit("ST"); reveal_strlit("OSC"); reveal_strlit("PM");
        reveal_strlit("APC");
    }
    assert forall|i: int| 0 <= i < control_shown(c).len() implies !is_terminal_control(
        #[trigger] control_shown(c)[i],
    ) by {
        if 0 < i < control_shown(c).len() - 1 {
            assert(control_shown(c)[i] == n[i - 1]);
        }
    }
}

/// Sanitized text holds no terminal control character, and sanitizing it
/// again changes nothing.
pub proof fn lemma_sanitized_clean(s: Seq<char>)
    ensures
        forall|i: int| 0 <= i < sanitized(s).len() ==> !is_terminal_control(#[trigger] sanitized(s)[i]),
        sanitized(sanitized(s)) == sanitized(s),
    decreases s.len(),
{
    if s.len() > 0 {
        lemma_sanitized_clean(s.drop_last());
        let init = sanitized(s.drop_last());
        if is_terminal_control(s.last()) {
            lemma_control_shown_printable(s.last());
            let shown = control_shown(s.last());
            assert forall|i: int| 0 <= i < sanitized(s).len() implies !is_terminal_control(
                #[trigger] sanitized(s)[i],
            ) by {
                if i < init.len() {
                    assert(sanitized(s)[i] == init[i]);
                } else {
                    assert(sanitized(s)[i] == shown[i - init.len()]);
                }
            }
        } else {
            assert forall|i: int| 0 <= i < sanitized(s).len() implies !is_terminal_control(
                #[trigger] sanitized(s)[i],
            ) by {
                if i < init.len() {
                    assert(sanitized(s)[i] == init[i]);
                }
            }
        }
    }
    lemma_sanitized_identity(sanitized(s));
}

/// Text safe to print on a terminal: control characters other than newline
/// and tab are shown by name, as `<CR>`.
pub fn sanitize_terminal_text(s: &str) -> (r: String)
    ensures
        r@ == sanitized(s@),
{
    let cs = chars_of(s);
    let mut r = String::new();
    let mut i: usize = 0;
    while i < cs.len()
        invariant
            cs@ == s@,
            i <= cs@.len(),
            r@ == sanitized(cs@.subrange(0, i as int)),
        decreases cs@.len() - i,
    {
        assert(cs@.subrange(0, i + 1).drop_last() =~= cs@.subrange(0, i as int));
        let c = cs[i];
        let code = c as u32;
        if (code < 0x20 && c != '\n' && c != '\t') || (0x7f <= code && code < 0xa0) {
            let ghost before = r@;
            push_char(&mut r, '<');
            push_str(&mut r, control_name_str(code));
            push_char(&mut r, '>');
            assert(r@ =~= before + control_shown(c));
        } else {
            push_char(&mut r, c);
        }
        i = i + 1;
    }
    assert(cs@.subrange(0, i as int) =~= cs@);
    r
}


/// What `format!("{:?}", s)` gives for a string slice: the text quoted,
/// with the characters that `str`'s `Debug` escapes written as escapes.
pub uninterp spec fn str_debug(s: Seq<char>) -> Seq<char>;

/// `format!("{:?}", s)` for a string slice (`<str as Debug>::fmt`).
#[verifier::external_body]
pub(crate) fn debug_str(s: &str) -> (r: String)
    ensures
        r@ == str_debug(s@),
{
    format!("{s:?}")
}

} // verus!
