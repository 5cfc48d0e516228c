//! Identifiers. An id is held as the 128-bit value of a UUID.
use vstd::prelude::*;

verus! {

/// The value of the UUID written as `s`, or `None` when `s` writes none.
pub uninterp spec fn uuid_of(s: Seq<char>) -> Option<u128>;

/// Relies on `uuid::Uuid::parse_str` (what `Uuid`'s `FromStr` calls): it reads
/// the textual forms of a UUID into the UUID, or refuses the text; the value
/// is then taken with `as_u128`. The result depends on the text alone.
#[verifier::external_body]
pub(crate) fn parse_uuid(s: &str) -> (r: Option<u128>)
    ensures
        r == uuid_of(s@),
{
    uuid::Uuid::parse_str(s).ok().map(|u| u.as_u128())
}

/// Relies on `uuid::Uuid::new_v4`: a random version-4 UUID from the
/// operating system's generator, taken as its 128-bit value. Nothing is
/// promised of the value. It panics only when the operating system yields
/// no random bytes.
#[verifier::external_body]
pub(crate) fn fresh_id() -> u128 {
    uuid::Uuid::new_v4().as_u128()
}

} // verus!
