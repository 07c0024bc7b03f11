//! The emission boundary: the synthesized text is checked to parse as a
//! source file, so that a malformed unit is reported as a warning and
//! emitted unformatted rather than lost. The pretty-printing itself
//! happens outside the library: its printer can abort on rare files the
//! parser accepts, and such an abort must degrade to unformatted output,
//! never escape a verified function.

use vstd::prelude::*;

verus! {

#[verifier::external_type_specification]
#[verifier::external_body]
pub struct ExSynFile(syn::File);

/// Whether a text parses as a Rust source file: what `syn::parse_file`
/// accepts is a function of the text alone.
pub uninterp spec fn parses_ok(code: Seq<char>) -> bool;

/// Relies on syn::parse_file: returns the parsed file exactly when the
/// text parses; it reports bad input through its error, never by
/// panicking.
#[verifier::external_body]
fn parse_source(code: &str) -> (r: Option<syn::File>)
    ensures
        r is Some <==> parses_ok(code@),
{
    match syn::parse_file(code) {
        Ok(file) => Some(file),
        Err(_) => None,
    }
}

/// Whether a generated unit is well formed: exactly when it parses as a
/// source file, the emitted artifact may be pretty-printed; otherwise the
/// unformatted text is the artifact and the failure is surfaced as a
/// warning, never as an error.
pub fn wellformed_generated(code: &str) -> (r: bool)
    ensures
        r == parses_ok(code@),
{
    match parse_source(code) {
        Some(_) => true,
        None => false,
    }
}

} // verus!
