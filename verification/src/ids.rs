use vstd::prelude::*;

verus! {

/// Relies on uuid::Uuid::new_v4 and its Display impl: a freshly drawn random
/// version-4 UUID, rendered in the hyphenated lower-case form, which is
/// always 36 characters long. The draw is random, so no two calls are
/// related; only the length is stated.
#[verifier::external_body]
pub(crate) fn fresh_uuid() -> (r: String)
    ensures
        r@.len() == 36,
{
    uuid::Uuid::new_v4().to_string()
}

} // verus!
