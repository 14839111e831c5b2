//! Calls into the outside collaborators that the orchestrator's decisions
//! need: name sanitization and identifier generation.

use vstd::prelude::*;

verus! {

/// The filesystem-safe canonical form of a raw instance name.
pub uninterp spec fn sanitized(name: Seq<char>) -> Seq<char>;

/// Relies on sanitize_filename::sanitize: a deterministic, pure
/// transformation of the name into a filesystem-safe form, depending on the
/// characters of the name alone.
#[verifier::external_body]
pub(crate) fn sanitize_name(name: &str) -> (r: String)
    ensures
        r@ == sanitized(name@),
{
    sanitize_filename::sanitize(name)
}

/// Relies on uuid::Uuid::new_v4 and the hyphenated form its Display
/// implementation documents: a randomly generated version-4 identifier,
/// rendered as 36 characters. Nothing relates two calls: each result is an
/// independent random draw.
#[verifier::external_body]
pub(crate) fn generate_identifier() -> (r: String)
    ensures
        r@.len() == 36,
{
    uuid::Uuid::new_v4().to_string()
}

} // verus!
