//! Identifiers of records, and how they are written.

use vstd::arithmetic::power::pow;
use vstd::prelude::*;
use vstd::string::*;

use crate::text::{from_chars, to_chars};

verus! {

/// The hexadecimal digit of `d`, in lower case.
pub open spec fn hex_digit(d: int) -> char {
    if d < 10 { (d + 0x30) as u8 as char } else { (d - 10 + 0x61) as u8 as char }
}

/// The `k`-th of the 32 hexadecimal digits of `id`, the most significant first.
pub open spec fn hex_at(id: u128, k: int) -> char {
    hex_digit((id as int / pow(16, (31 - k) as nat)) % 16)
}

/// The 32 hexadecimal digits of `id`.
pub open spec fn simple_of(id: u128) -> Seq<char> {
    Seq::new(32, |k: int| hex_at(id, k))
}

/// The digits of `id` in the groups 8-4-4-4-12, with dashes between them.
pub open spec fn hyphenated(id: u128) -> Seq<char> {
    let s = simple_of(id);
    s.subrange(0, 8) + "-"@ + s.subrange(8, 12) + "-"@ + s.subrange(12, 16) + "-"@ + s.subrange(
        16,
        20,
    ) + "-"@ + s.subrange(20, 32)
}

/// `uuid::Uuid::to_string` on the identifier with this value: 32 lower-case
/// hexadecimal digits in groups, with dashes between them.
#[verifier::external_body]
pub(crate) fn id_text(id: u128) -> (r: String)
    ensures
        r@ == hyphenated(id),
{
    uuid::Uuid::from_u128(id).to_string()
}

/// `uuid::Uuid::simple` on the identifier with this value: its 32 lower-case
/// hexadecimal digits.
#[verifier::external_body]
fn simple_text(id: u128) -> (r: String)
    ensures
        r@ == simple_of(id),
{
    uuid::Uuid::from_u128(id).simple().to_string()
}

/// The identifier is marked as a random one: its version number is 4, and its variant
/// bits are those of RFC 9562.
pub open spec fn marked_random(id: u128) -> bool {
    &&& hex_at(id, 12) == '4'
    &&& hex_at(id, 16) == '8' || hex_at(id, 16) == '9' || hex_at(id, 16) == 'a' || hex_at(id, 16)
        == 'b'
}

/// `uuid::Uuid::new_v4`: a random identifier, marked as one. The other digits are left
/// to chance.
#[verifier::external_body]
fn random_id() -> (id: u128)
    ensures
        marked_random(id),
{
    uuid::Uuid::new_v4().as_u128()
}

/// An identifier for a new record.
pub fn new_id() -> (id: u128)
    ensures
        marked_random(id),
{
    random_id()
}

/// The first eight digits of an identifier.
pub open spec fn short_of(id: u128) -> Seq<char> {
    simple_of(id).take(8)
}

/// A short identifier is how the long one begins: eight digits, without a dash.
pub proof fn short_ids_begin_the_long_ones(id: u128, k: int)
    requires
        0 <= k < 8,
    ensures
        short_of(id).len() == 8,
        short_of(id) == hyphenated(id).take(8),
        '0' <= short_of(id)[k] <= '9' || 'a' <= short_of(id)[k] <= 'f',
{
    let s = simple_of(id);
    assert(s.take(8) =~= s.subrange(0, 8));
    assert(hyphenated(id).take(8) =~= s.subrange(0, 8));
}

/// The first eight digits of an identifier.
pub fn short_id(id: u128) -> (r: String)
    ensures
        r@ == short_of(id),
{
    let v = to_chars(simple_text(id).as_str());
    proof {
        assert(v@.subrange(0, 8) == simple_of(id).take(8));
    }
    from_chars(&v, 0, 8)
}

} // verus!
