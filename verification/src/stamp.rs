//! What each write takes from outside: the current time and, for entities
//! whose identities are generated here, a fresh identity.

use vstd::prelude::*;

verus! {

/// Fewest characters of a stamp: date, `T`, time to the second, and the offset.
pub const STAMP_LENGTH: usize = 25;

/// Characters of a generated identity.
pub const IDENTITY_LENGTH: usize = 36;

/// What holds of every stamp: it is long enough to hold a date, a time to the
/// second and an offset, and it ends with the offset of UTC.
pub open spec fn is_utc_stamp(text: Seq<char>) -> bool {
    &&& text.len() >= STAMP_LENGTH
    &&& text.subrange(text.len() - 6, text.len() as int) == "+00:00"@
}

/// What holds of every generated identity: five groups of characters, of
/// lengths 8, 4, 4, 4 and 12, with a hyphen between them.
pub open spec fn is_identity(text: Seq<char>) -> bool {
    &&& text.len() == IDENTITY_LENGTH
    &&& text[8] == '-'
    &&& text[13] == '-'
    &&& text[18] == '-'
    &&& text[23] == '-'
}

/// Calls `chrono::Utc::now` and writes the result with
/// `chrono::DateTime::to_rfc3339`. Trusted. The text depends on the system
/// clock, so only what chrono writes for every time is claimed: a date, `T`, a
/// time to the second at least, and the offset `+00:00`, which is 25
/// characters or more. Nothing is claimed of the digits, nor of the place of
/// the separators, which a year beyond 9999 shifts. `now` panics where the
/// clock is set before 1970; no argument of the caller's has a part in that.
#[verifier::external_body]
pub(crate) fn current_timestamp() -> (text: String)
    ensures
        is_utc_stamp(text@),
{
    chrono::Utc::now().to_rfc3339()
}

/// Calls `uuid::Uuid::new_v4` and writes the result in its hyphenated form with
/// `to_string`. Trusted. The text depends on the random source, so only what
/// uuid writes for every identity is claimed: 36 characters with hyphens after
/// the groups of 8, 4, 4 and 4. `new_v4` panics where the system hands out no
/// random bytes; no argument of the caller's has a part in that.
#[verifier::external_body]
pub(crate) fn fresh_identity() -> (text: String)
    ensures
        is_identity(text@),
{
    uuid::Uuid::new_v4().to_string()
}

} // verus!
