//! Identifier generation for events and subscriptions.

use vstd::prelude::*;

verus! {

/// Relies on uuid::Uuid::new_v4: a freshly drawn random identifier,
/// rendered in the hyphenated form, which is 36 characters long.
/// Nothing further is assumed of the drawn value.
#[verifier::external_body]
pub fn fresh_id() -> (r: String)
    ensures
        r@.len() == 36,
{
    uuid::Uuid::new_v4().to_string()
}

} // verus!
