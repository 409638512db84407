//! Account ids as text: the 128 bits of an id written as a hyphenated UUID,
//! and read back from one.

use vstd::prelude::*;
use uuid::Uuid;
use crate::text::push_char;

verus! {

/// The character of the hexadecimal digit `d`, in lower case.
pub open spec fn hex_char(d: int) -> char {
    if d < 10 {
        ('0' as int + d) as char
    } else {
        ('a' as int + d - 10) as char
    }
}

/// The `j`-th group of four bits of `id`, counted from the most significant.
pub open spec fn nibble(id: u128, j: int) -> int {
    ((id >> ((124 - 4 * j) as u128)) & 0xf) as int
}

/// Whether a hyphen stands at position `k` of a hyphenated UUID.
pub open spec fn is_hyphen_position(k: int) -> bool {
    k == 8 || k == 13 || k == 18 || k == 23
}

/// The number of hyphens before position `k` of a hyphenated UUID.
pub open spec fn hyphens_before(k: int) -> int {
    if k > 23 {
        4
    } else if k > 18 {
        3
    } else if k > 13 {
        2
    } else if k > 8 {
        1
    } else {
        0
    }
}

/// The character at position `k` of the hyphenated UUID of `id`.
pub open spec fn uuid_char(id: u128, k: int) -> char {
    if is_hyphen_position(k) {
        '-'
    } else {
        hex_char(nibble(id, k - hyphens_before(k)))
    }
}

/// The hyphenated UUID of `id`: 32 hexadecimal digits in lower case, most
/// significant first, in groups of 8, 4, 4, 4 and 12.
pub open spec fn uuid_text(id: u128) -> Seq<char> {
    Seq::new(36, |k: int| uuid_char(id, k))
}

fn hex_digit(d: u8) -> (c: char)
    requires
        d < 16,
    ensures
        c == hex_char(d as int),
{
    if d < 10 {
        (48u8 + d) as char
    } else {
        (87u8 + d) as char
    }
}

/// Writes an account id as a hyphenated UUID.
pub fn format_uuid(id: u128) -> (r: String)
    ensures
        r@ == uuid_text(id),
{
    let mut r = String::new();
    let mut k: usize = 0;
    let mut j: u32 = 0;
    while k < 36
        invariant
            0 <= k <= 36,
            j == k - hyphens_before(k as int),
            r@.len() == k,
            forall|i: int| 0 <= i < k ==> r@[i] == uuid_char(id, i),
        decreases 36 - k,
    {
        if k == 8 || k == 13 || k == 18 || k == 23 {
            push_char(&mut r, '-');
        } else {
            let shift: u32 = 124 - 4 * j;
            let bits: u128 = (id >> shift) & 0xf;
            assert(bits < 16) by (bit_vector)
                requires
                    bits == (id >> shift) & 0xf,
            ;
            assert(bits == nibble(id, j as int));
            push_char(&mut r, hex_digit(bits as u8));
            j = j + 1;
        }
        k = k + 1;
    }
    assert(r@ =~= uuid_text(id));
    r
}

/// The id that a text denotes as a UUID, in any of the forms that a UUID is
/// written in; `None` where the text is no UUID.
pub uninterp spec fn uuid_parsed(s: Seq<char>) -> Option<u128>;

/// Reads an account id from a UUID.
///
/// Trusted: `Uuid::parse_str`, which depends on the text alone, and
/// `Uuid::as_u128` on what it read; a text that does not parse gives `None`.
#[verifier::external_body]
pub(crate) fn parse_uuid(s: &str) -> (r: Option<u128>)
    ensures
        r == uuid_parsed(s@),
{
    match Uuid::parse_str(s) {
        Ok(id) => Some(id.as_u128()),
        Err(_) => None,
    }
}

} // verus!
