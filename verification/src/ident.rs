//! Fresh identifiers for messages and sessions.

use vstd::prelude::*;

verus! {

/// Draws a random version-4 UUID with `uuid::Uuid::new_v4` and writes it in
/// the hyphenated form, which has 36 characters.  Nothing else is claimed:
/// each call gives another identifier.
#[verifier::external_body]
pub(crate) fn fresh_uuid() -> (id: String)
    ensures
        id@.len() == 36,
{
    uuid::Uuid::new_v4().to_string()
}

/// Draws a random version-4 UUID with `uuid::Uuid::new_v4` and writes it in
/// the simple form, 32 characters without hyphens.  Nothing else is claimed:
/// each call gives another identifier.
#[verifier::external_body]
pub(crate) fn fresh_uuid_simple() -> (id: String)
    ensures
        id@.len() == 32,
{
    uuid::Uuid::new_v4().simple().to_string()
}

} // verus!
