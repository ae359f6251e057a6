//! The reading of expanded source text.
//!
//! The text of a crate, with every macro expanded, is read by `syn`. This
//! module says when that succeeds and turns its failure into an error of
//! this library; the tree itself is handed on unread.

use crate::generator::GenerationError;
use vstd::prelude::*;

verus! {

/// The tree that `syn` makes of a source file.
#[verifier::external_type_specification]
#[verifier::external_body]
pub struct ExFile(syn::File);

/// The error with which `syn` refuses a text.
#[verifier::external_type_specification]
#[verifier::external_body]
pub struct ExError(syn::Error);

/// Whether `syn` reads `source` as a file of Rust code.
pub uninterp spec fn is_rust_file(source: Seq<char>) -> bool;

/// Calls `syn::parse_file`, which parses the content of a file of Rust code.
///
/// Not proved: that whether it returns a tree depends on the text alone,
/// which is what naming the outcome `is_rust_file` claims.
#[verifier::external_body]
fn parse_file(source: &str) -> (parsed: Result<syn::File, syn::Error>)
    ensures
        parsed is Ok <==> is_rust_file(source@),
{
    syn::parse_file(source)
}

/// Calls `to_string` on a `syn::Error`, which gives the message of the
/// error. Nothing is claimed of the message.
#[verifier::external_body]
fn error_message(error: &syn::Error) -> (message: String) {
    error.to_string()
}

/// Parses the expanded text of a crate.
///
/// The tree comes back where the text is a file of Rust code. Where it is
/// not, the error holds the text and the parser's message.
pub fn parse_expanded(expanded: String) -> (parsed: Result<syn::File, GenerationError>)
    ensures
        parsed is Ok <==> is_rust_file(expanded@),
        parsed matches Err(e) ==> e matches GenerationError::RustSyntax(source, _) && source@
            == expanded@,
{
    match parse_file(expanded.as_str()) {
        Ok(file) => Ok(file),
        Err(error) => {
            let message = error_message(&error);
            Err(GenerationError::RustSyntax(expanded, message))
        },
    }
}

} // verus!
