//! UUIDs, held as their 128-bit value, and their text forms.
use vstd::prelude::*;

verus! {

/// The lower-case hexadecimal digit of `d` (`0 <= d < 16`).
pub open spec fn hex_digit(d: int) -> char {
    if d < 10 {
        (48 + d) as char
    } else {
        (87 + d) as char
    }
}

/// Whether `c` is a lower-case hexadecimal digit.
pub open spec fn is_lower_hex(c: char) -> bool {
    ('0' <= c && c <= '9') || ('a' <= c && c <= 'f')
}

/// The `i`-th group of four bits of `id`, counted from the most significant end.
pub open spec fn nibble(id: u128, i: int) -> int {
    ((id >> ((124 - 4 * i) as u128)) & 0xf) as int
}

/// The "simple" text form of a UUID: its 32 lower-case hexadecimal digits, most significant
/// first, with no separators.
pub open spec fn uuid_simple(id: u128) -> Seq<char> {
    Seq::new(32, |i: int| hex_digit(nibble(id, i)))
}

/// The version field of a UUID: the high four bits of its seventh byte.
pub open spec fn uuid_version(id: u128) -> int {
    nibble(id, 12)
}

proof fn lemma_low_nibble(x: u128)
    ensures
        x & 0xf <= 15,
{
    assert(x & 0xf <= 15) by (bit_vector);
}

/// Every character of a simple UUID text is a lower-case hexadecimal digit.
pub proof fn lemma_uuid_simple_hex(id: u128)
    ensures
        uuid_simple(id).len() == 32,
        forall|i: int| 0 <= i < 32 ==> #[trigger] is_lower_hex(uuid_simple(id)[i]),
{
    assert forall|i: int| 0 <= i < 32 implies #[trigger] is_lower_hex(uuid_simple(id)[i]) by {
        lemma_low_nibble(id >> ((124 - 4 * i) as u128));
    }
}

/// `uuid::Uuid::simple` rendered with `to_string`: the uuid crate formats the 16 bytes of
/// the UUID (big-endian, as `Uuid::from_u128` lays them out) as 32 lower-case hex digits.
#[verifier::external_body]
pub(crate) fn uuid_simple_string(id: u128) -> (s: String)
    ensures
        s@ == uuid_simple(id),
{
    uuid::Uuid::from_u128(id).simple().to_string()
}

/// `uuid::Uuid::get_version` compared with `Version::SortRand`: the uuid crate maps a
/// version field of 7 to `SortRand`, and no other field value to it.
#[verifier::external_body]
pub(crate) fn uuid_is_sort_rand(id: u128) -> (r: bool)
    ensures
        r == (uuid_version(id) == 7),
{
    matches!(uuid::Uuid::from_u128(id).get_version(), Some(uuid::Version::SortRand))
}

/// `uuid::Uuid::new_v4`: a random UUID whose version field the uuid crate sets to 4. Which
/// value comes back is chance; nothing more is claimed of it.
#[verifier::external_body]
pub(crate) fn new_random_uuid() -> (id: u128)
    ensures
        uuid_version(id) == 4,
{
    uuid::Uuid::new_v4().as_u128()
}

} // verus!
