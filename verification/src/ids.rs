//! Generation of fresh record identifiers.

use vstd::prelude::*;

verus! {

/// Relies on `uuid::Uuid::new_v4`: draws a fresh random version-4
/// identifier and hands back its 128-bit value.  Nothing is assumed of the
/// drawn value; callers must treat any outcome, including a collision with
/// a stored identifier, as possible.  The call panics if the operating
/// system's randomness source fails.
#[verifier::external_body]
pub(crate) fn fresh_id() -> u128 {
    uuid::Uuid::new_v4().as_u128()
}

} // verus!
