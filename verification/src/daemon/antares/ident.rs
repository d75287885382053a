//! Mount identifiers: 128-bit UUIDs, held as plain integers.

use uuid::Uuid;
use vstd::prelude::*;

verus! {

/// The sixteen lower-case hexadecimal digits.
pub open spec fn hex_digits() -> Seq<char> {
    seq!['0', '1', '2', '3', '4', '5', '6', '7', '8', '9', 'a', 'b', 'c', 'd', 'e', 'f']
}

/// The `d`-th of the 32 hexadecimal digits of `id`, counted from the most
/// significant one.
pub open spec fn hex_at(id: u128, d: int) -> int {
    ((id >> ((4 * (31 - d)) as u128)) & 0xf) as int
}

/// How many hyphens stand before position `p` of the hyphenated form.
pub open spec fn hyphens_before(p: int) -> int {
    if p < 8 {
        0
    } else if p < 13 {
        1
    } else if p < 18 {
        2
    } else if p < 23 {
        3
    } else {
        4
    }
}

/// The canonical text of an identifier: 32 lower-case hexadecimal digits in
/// groups of 8, 4, 4, 4 and 12, most significant first, with hyphens between
/// the groups.
pub open spec fn hyphenated(id: u128) -> Seq<char> {
    Seq::new(
        36,
        |p: int|
            if p == 8 || p == 13 || p == 18 || p == 23 {
                '-'
            } else {
                hex_digits()[hex_at(id, p - hyphens_before(p))]
            },
    )
}

/// Whether `id` carries the version and variant marks of a random UUID.
pub open spec fn is_random_uuid(id: u128) -> bool {
    (id >> 76) & 0xf == 4 && (id >> 62) & 0x3 == 2
}

/// `Uuid`'s `Display`, on the UUID that `Uuid::from_u128` makes of `id`: the
/// hyphenated lower-case form of the identifier's big-endian bytes.
#[verifier::external_body]
pub(crate) fn mount_id_text(id: u128) -> (text: String)
    ensures
        text@ == hyphenated(id),
{
    Uuid::from_u128(id).to_string()
}

/// `Uuid::new_v4`, as the integer that `Uuid::as_u128` gives: random bits
/// around a version field of 4 and a variant field of binary 10. Which
/// identifier comes back is not promised, nor that it differs from an earlier
/// one.
#[verifier::external_body]
pub(crate) fn fresh_mount_id() -> (id: u128)
    ensures
        is_random_uuid(id),
{
    Uuid::new_v4().as_u128()
}

} // verus!
