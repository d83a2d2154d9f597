//! Identifiers: UUIDs, held as their 128-bit value, and their text.

use vstd::prelude::*;
use vstd::arithmetic::power2::pow2;
use crate::text::digit_char;

verus! {

/// The nibble `j` of `id`, counting from the most significant one (`j` in
/// `0..32`).
pub open spec fn nibble(id: u128, j: int) -> int {
    (id as int / pow2((4 * (31 - j)) as nat) as int) % 16
}

/// The lower-case hexadecimal digit for `d` in `0..16`.
pub open spec fn hex_char(d: int) -> char {
    if d < 10 {
        digit_char(d)
    } else if d == 10 {
        'a'
    } else if d == 11 {
        'b'
    } else if d == 12 {
        'c'
    } else if d == 13 {
        'd'
    } else if d == 14 {
        'e'
    } else {
        'f'
    }
}

/// How many hyphens come before position `i` of the hyphenated form.
pub open spec fn hyphens_before(i: int) -> int {
    if i < 8 {
        0
    } else if i < 13 {
        1
    } else if i < 18 {
        2
    } else if i < 23 {
        3
    } else {
        4
    }
}

/// The hyphenated lower-case text of a UUID, such as
/// `67e55044-10b1-426f-9247-bb680e5fe0c8`: 32 hexadecimal digits, most
/// significant first, in groups of 8, 4, 4, 4 and 12.
pub open spec fn hyphenated(id: u128) -> Seq<char> {
    Seq::new(
        36,
        |i: int|
            if i == 8 || i == 13 || i == 18 || i == 23 {
                '-'
            } else {
                hex_char(nibble(id, i - hyphens_before(i)))
            },
    )
}

/// `id` is a random (version 4, RFC 4122 variant) UUID: its version nibble
/// is 4 and its two variant bits are `10`.
pub open spec fn is_random_uuid(id: u128) -> bool {
    &&& (id as int / pow2(76) as int) % 16 == 4
    &&& (id as int / pow2(62) as int) % 4 == 2
}

/// Calls `uuid::Uuid::new_v4` and gives the UUID as its 128-bit value
/// (`Uuid::as_u128`, most significant byte first).  The bits are random but
/// for the version nibble, which `new_v4` sets to 4, and the variant bits,
/// which it sets to `10`.
#[verifier::external_body]
pub(crate) fn new_random_uuid() -> (id: u128)
    ensures
        is_random_uuid(id),
{
    uuid::Uuid::new_v4().as_u128()
}

/// Calls `String::from` on `uuid::Uuid::from_u128(id)`, which uuid
/// implements by the `Display` of `Uuid`: the hyphenated lower-case form.
#[verifier::external_body]
pub(crate) fn uuid_text(id: u128) -> (res: String)
    ensures
        res@ == hyphenated(id),
{
    String::from(uuid::Uuid::from_u128(id))
}

} // verus!
