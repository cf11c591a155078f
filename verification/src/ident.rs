//! Fresh identifiers for materials, tracks and segments.

use vstd::prelude::*;

verus! {

/// Relies on uuid::Uuid::new_v4 and its Display impl: a fresh random
/// identifier rendered in the hyphenated form, which is exactly 36
/// characters. The value is random, so nothing more is promised.
#[verifier::external_body]
pub fn fresh_id() -> (r: String)
    ensures
        r@.len() == 36,
{
    uuid::Uuid::new_v4().to_string()
}

} // verus!
