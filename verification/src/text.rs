//! Text helpers shared by the rest of the crate: concatenation, decimal
//! numbers, case-insensitive keys and prefixes, all stated over `Seq<char>`.

use vstd::prelude::*;
use vstd::string::*;

verus! {

/// Appends one character to a string.
///
/// Trusted: stands for `String::push`, which adds `c` at the end and leaves
/// the rest of the string as it was.
#[verifier::external_body]
pub(crate) fn push_char(s: &mut String, c: char)
    ensures
        final(s)@ == old(s)@.push(c),
{
    s.push(c)
}

/// The characters of `s`, in order.
pub fn to_chars(s: &str) -> (v: Vec<char>)
    ensures
        v@ == s@,
{
    let mut v: Vec<char> = Vec::new();
    for c in it: s.chars()
        invariant
            v@ == it.seq().take(it.index() as int),
            it.seq() == s@,
    {
        v.push(c);
    }
    v
}

/// The string that holds the characters `v[from..]`.
fn from_chars(v: &Vec<char>, from: usize) -> (r: String)
    requires
        from <= v.len(),
    ensures
        r@ == v@.subrange(from as int, v.len() as int),
{
    let mut r = String::new();
    let mut i: usize = from;
    while i < v.len()
        invariant
            from <= i <= v.len(),
            r@ == v@.subrange(from as int, i as int),
        decreases v.len() - i,
    {
        push_char(&mut r, v[i]);
        i = i + 1;
    }
    r
}

/// Whether two string slices hold the same text.
pub fn str_eq(a: &str, b: &str) -> (r: bool)
    ensures
        r == (a@ == b@),
{
    String::from_str(a) == String::from_str(b)
}

/// The text of `a` followed by the text of `b`.
pub fn joined(a: &str, b: &str) -> (r: String)
    ensures
        r@ == a@ + b@,
{
    let mut r = String::from_str(a);
    r.append(b);
    r
}

// ---------------------------------------------------------------------
// Decimal numbers
// ---------------------------------------------------------------------

/// The character of the decimal digit `d`.
pub open spec fn digit_char(d: int) -> char {
    ('0' as int + d) as char
}

/// The decimal numeral of `n`, without sign or leading zeros.
pub open spec fn decimal(n: nat) -> Seq<char>
    decreases n,
{
    if n < 10 {
        seq![digit_char(n as int)]
    } else {
        decimal(n / 10).push(digit_char((n % 10) as int))
    }
}

/// The decimal numeral of `i`, with a leading `-` for negative numbers.
pub open spec fn signed_decimal(i: int) -> Seq<char> {
    if i < 0 {
        seq!['-'] + decimal((-i) as nat)
    } else {
        decimal(i as nat)
    }
}

fn digit(d: u8) -> (c: char)
    requires
        d < 10,
    ensures
        c == digit_char(d as int),
{
    (48u8 + d) as char
}

/// Formats `n` in decimal.
pub fn u64_to_decimal(n: u64) -> (r: String)
    ensures
        r@ == decimal(n as nat),
    decreases n,
{
    if n < 10 {
        let mut r = String::new();
        push_char(&mut r, digit(n as u8));
        r
    } else {
        let mut r = u64_to_decimal(n / 10);
        push_char(&mut r, digit((n % 10) as u8));
        r
    }
}

/// Formats `i` in decimal, with a leading `-` for negative numbers.
pub fn i64_to_decimal(i: i64) -> (r: String)
    ensures
        r@ == signed_decimal(i as int),
{
    if i < 0 {
        let magnitude: u64 = (-(i as i128)) as u64;
        let digits = u64_to_decimal(magnitude);
        proof {
            reveal_strlit("-");
            assert("-"@ =~= seq!['-']);
        }
        joined("-", digits.as_str())
    } else {
        u64_to_decimal(i as u64)
    }
}

/// Whether `c` is one of `0` to `9`.
pub open spec fn is_digit(c: char) -> bool {
    '0' <= c <= '9'
}

/// The number that a run of decimal digits denotes; 0 for the empty run.
pub open spec fn digits_value(s: Seq<char>) -> nat
    decreases s.len(),
{
    if s.len() == 0 {
        0
    } else {
        digits_value(s.drop_last()) * 10 + (s.last() as int - '0' as int) as nat
    }
}

/// Whether `s` is a non-empty run of decimal digits.
pub open spec fn is_numeral(s: Seq<char>) -> bool {
    s.len() > 0 && forall|i: int| 0 <= i < s.len() ==> is_digit(#[trigger] s[i])
}

/// What an unsigned decimal field denotes: an optional `+`, then digits.
/// `None` where the text has any other shape.
pub open spec fn unsigned_value(s: Seq<char>) -> Option<nat> {
    let body = if s.len() > 0 && s[0] == '+' {
        s.drop_first()
    } else {
        s
    };
    if is_numeral(body) {
        Some(digits_value(body))
    } else {
        None
    }
}

/// What a signed decimal field denotes: an optional `+` or `-`, then digits.
/// `None` where the text has any other shape.
pub open spec fn signed_value(s: Seq<char>) -> Option<int> {
    if s.len() > 0 && s[0] == '-' {
        if is_numeral(s.drop_first()) {
            Some(-(digits_value(s.drop_first()) as int))
        } else {
            None
        }
    } else {
        match unsigned_value(s) {
            Some(v) => Some(v as int),
            None => None,
        }
    }
}

/// A longer run of digits denotes at least what its prefix denotes.
proof fn lemma_digits_value_prefix(s: Seq<char>, k: int)
    requires
        0 <= k <= s.len(),
    ensures
        digits_value(s.take(k)) <= digits_value(s),
    decreases s.len() - k,
{
    if k == s.len() {
        assert(s.take(k) =~= s);
    } else {
        lemma_digits_value_prefix(s, k + 1);
        assert(s.take(k + 1).drop_last() =~= s.take(k));
    }
}

/// Reads the digits `v[from..]` as a number no greater than `limit`.
fn read_digits(v: &Vec<char>, from: usize, limit: u64) -> (r: Option<u64>)
    requires
        from <= v.len(),
    ensures
        r == (if is_numeral(v@.subrange(from as int, v.len() as int)) && digits_value(
            v@.subrange(from as int, v.len() as int),
        ) <= limit {
            Some(digits_value(v@.subrange(from as int, v.len() as int)) as u64)
        } else {
            None
        }),
{
    let ghost body = v@.subrange(from as int, v.len() as int);
    if from == v.len() {
        return None;
    }
    let mut acc: u128 = 0;
    let mut i: usize = from;
    while i < v.len()
        invariant
            from <= i <= v.len(),
            body == v@.subrange(from as int, v.len() as int),
            acc == digits_value(body.take(i - from)),
            acc <= limit,
            forall|j: int| 0 <= j < i - from ==> is_digit(#[trigger] body[j]),
        decreases v.len() - i,
    {
        let c = v[i];
        assert(c == body[i - from]);
        if !('0' <= c && c <= '9') {
            return None;
        }
        let d: u128 = (c as u32 - '0' as u32) as u128;
        let next: u128 = acc * 10 + d;
        proof {
            assert(body.take(i - from + 1).drop_last() =~= body.take(i - from));
            assert(next == digits_value(body.take(i - from + 1)));
        }
        if next > limit as u128 {
            proof {
                lemma_digits_value_prefix(body, i - from + 1);
            }
            return None;
        }
        acc = next;
        i = i + 1;
    }
    proof {
        assert(body.take(i - from) =~= body);
    }
    Some(acc as u64)
}

/// Reads an unsigned decimal field that must fit in 16 bits.
pub fn parse_u16(s: &str) -> (r: Option<u16>)
    ensures
        r == (match unsigned_value(s@) {
            Some(v) if v <= u16::MAX => Some(v as u16),
            _ => None,
        }),
{
    let v = to_chars(s);
    let from: usize = if v.len() > 0 && v[0] == '+' {
        1
    } else {
        0
    };
    proof {
        assert(v@.subrange(0, v.len() as int) =~= s@);
        if from == 1 {
            assert(v@.subrange(1, v.len() as int) =~= s@.drop_first());
        }
    }
    match read_digits(&v, from, 65535) {
        Some(n) => Some(n as u16),
        None => None,
    }
}

/// Reads a signed decimal field that must fit in 64 bits.
pub fn parse_i64(s: &str) -> (r: Option<i64>)
    ensures
        r == (match signed_value(s@) {
            Some(v) if i64::MIN <= v <= i64::MAX => Some(v as i64),
            _ => None,
        }),
{
    let v = to_chars(s);
    proof {
        assert(v@.subrange(0, v.len() as int) =~= s@);
        if v.len() > 0 {
            assert(v@.subrange(1, v.len() as int) =~= s@.drop_first());
        }
    }
    if v.len() > 0 && v[0] == '-' {
        match read_digits(&v, 1, 0x8000_0000_0000_0000) {
            Some(n) => Some((-(n as i128)) as i64),
            None => None,
        }
    } else {
        let from: usize = if v.len() > 0 && v[0] == '+' {
            1
        } else {
            0
        };
        match read_digits(&v, from, 0x7fff_ffff_ffff_ffff) {
            Some(n) => Some(n as i64),
            None => None,
        }
    }
}

// ---------------------------------------------------------------------
// Case-insensitive keys and prefixes
// ---------------------------------------------------------------------

/// `c` with the letters `A` to `Z` turned to lower case.
pub open spec fn lower_char(c: char) -> char {
    if 'A' <= c <= 'Z' {
        (c as int + 32) as char
    } else {
        c
    }
}

/// `s` with the letters `A` to `Z` turned to lower case.
pub open spec fn lowercase(s: Seq<char>) -> Seq<char> {
    Seq::new(s.len(), |i: int| lower_char(s[i]))
}

fn lower(c: char) -> (r: char)
    ensures
        r == lower_char(c),
{
    if 'A' <= c && c <= 'Z' {
        ((c as u8) + 32u8) as char
    } else {
        c
    }
}

/// Whether two texts are equal once `A` to `Z` are turned to lower case.
pub fn eq_ignore_case(a: &str, b: &str) -> (r: bool)
    ensures
        r == (lowercase(a@) == lowercase(b@)),
{
    let x = to_chars(a);
    let y = to_chars(b);
    if x.len() != y.len() {
        proof {
            assert(lowercase(a@).len() != lowercase(b@).len());
        }
        return false;
    }
    let mut i: usize = 0;
    while i < x.len()
        invariant
            x@ == a@,
            y@ == b@,
            x.len() == y.len(),
            0 <= i <= x.len(),
            forall|j: int| 0 <= j < i ==> lower_char(x@[j]) == lower_char(y@[j]),
        decreases x.len() - i,
    {
        if lower(x[i]) != lower(y[i]) {
            proof {
                assert(lowercase(a@)[i as int] != lowercase(b@)[i as int]);
            }
            return false;
        }
        i = i + 1;
    }
    proof {
        assert(lowercase(a@) =~= lowercase(b@));
    }
    true
}

/// Whether `s` begins with `prefix`.
pub open spec fn has_prefix(s: Seq<char>, prefix: Seq<char>) -> bool {
    prefix.len() <= s.len() && s.subrange(0, prefix.len() as int) == prefix
}

/// What follows `prefix` in `s`, where `s` begins with it.
pub fn strip_prefix(s: &str, prefix: &str) -> (r: Option<String>)
    ensures
        r matches Some(rest) ==> has_prefix(s@, prefix@) && rest@ == s@.subrange(
            prefix@.len() as int,
            s@.len() as int,
        ),
        r is None ==> !has_prefix(s@, prefix@),
{
    let v = to_chars(s);
    let p = to_chars(prefix);
    if p.len() > v.len() {
        return None;
    }
    let mut i: usize = 0;
    while i < p.len()
        invariant
            v@ == s@,
            p@ == prefix@,
            p.len() <= v.len(),
            0 <= i <= p.len(),
            forall|j: int| 0 <= j < i ==> v@[j] == p@[j],
        decreases p.len() - i,
    {
        if v[i] != p[i] {
            proof {
                assert(s@.subrange(0, prefix@.len() as int)[i as int] != prefix@[i as int]);
            }
            return None;
        }
        i = i + 1;
    }
    proof {
        assert(s@.subrange(0, prefix@.len() as int) =~= prefix@);
    }
    Some(from_chars(&v, p.len()))
}

} // verus!
