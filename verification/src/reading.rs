//! Reading the argument list of an annotation as a path of the host
//! language.
//!
//! The reading is done by `syn`. Which texts `syn` accepts is not stated
//! here: beneath it the text is cut into tokens by a lexer that the running
//! process chooses (the compiler's own during a macro expansion, a built-in
//! one elsewhere), so the same text need not read the same everywhere.

use vstd::prelude::*;

verus! {

/// `syn::Path`, a path of the host language as `syn` parsed it.
#[verifier::external_type_specification]
#[verifier::external_body]
pub struct ExPath(syn::Path);

/// `syn::Error`, the error of a failed parse.
#[verifier::external_type_specification]
#[verifier::external_body]
pub struct ExSynError(syn::Error);

/// `syn::parse_str::<syn::Path>`. Trusted only to return: nothing is claimed
/// of which texts parse.
#[verifier::external_body]
fn parse_path(text: &str) -> (parsed: Result<syn::Path, syn::Error>) {
    syn::parse_str::<syn::Path>(text)
}

/// `syn::Path::get_ident`, with the identifier's text in place of the
/// identifier. Nothing is claimed of the result.
#[verifier::external_body]
fn path_identifier(path: &syn::Path) -> (identifier: Option<String>) {
    match path.get_ident() {
        Some(ident) => Some(ident.to_string()),
        None => None,
    }
}

/// The message of a `syn::Error`, through its `Display`. Nothing is claimed
/// of the text.
#[verifier::external_body]
fn error_detail(error: &syn::Error) -> (detail: String) {
    error.to_string()
}

/// What reading an annotation's argument list as a path gave.
#[derive(Debug, Clone, PartialEq, Eq)]
pub enum PathArgument {
    /// A path that is one identifier, without a leading `::` and without
    /// generic arguments.
    Identifier(String),
    /// A path that is more than one identifier.
    Compound,
    /// Not a path; the text is the parser's complaint.
    Unparsable(String),
}

pub enum PathArgumentView {
    Identifier(Seq<char>),
    Compound,
    Unparsable(Seq<char>),
}

impl View for PathArgument {
    type V = PathArgumentView;

    open spec fn view(&self) -> PathArgumentView {
        match self {
            PathArgument::Identifier(name) => PathArgumentView::Identifier(name@),
            PathArgument::Compound => PathArgumentView::Compound,
            PathArgument::Unparsable(detail) => PathArgumentView::Unparsable(detail@),
        }
    }
}

/// Reads a text as a path.
pub(crate) fn read_path(text: &str) -> PathArgument {
    match parse_path(text) {
        Ok(path) => match path_identifier(&path) {
            Some(name) => PathArgument::Identifier(name),
            None => PathArgument::Compound,
        },
        Err(error) => PathArgument::Unparsable(error_detail(&error)),
    }
}

} // verus!
