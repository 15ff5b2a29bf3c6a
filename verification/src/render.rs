//! Rendering: the `syn` crate reads a token stream as a source file, and the
//! `prettyplease` crate writes the file as formatted text.

use vstd::prelude::*;
use crate::tokens::{stream_tokens, Token};
use crate::unit::UnitView;

verus! {

/// The syntax tree of a source file, of the `syn` crate.
#[verifier::external_type_specification]
#[verifier::external_body]
pub struct ExSynFile(syn::File);

/// The parse error of the `syn` crate.
#[verifier::external_type_specification]
#[verifier::external_body]
pub struct ExSynError(syn::Error);

/// The source file that `syn` reads from a sequence of tokens; none where
/// the tokens are not a sequence of items.
pub uninterp spec fn parsed_file(tokens: Seq<Token>) -> Option<syn::File>;

/// The formatted text that `prettyplease` writes for a source file.
pub uninterp spec fn file_text(file: syn::File) -> Seq<char>;

/// The file was read from the tokens of a unit whose names are all plain
/// identifiers.
pub open spec fn is_unit_file(file: syn::File) -> bool {
    exists|unit: UnitView| unit.is_renderable() && parsed_file(unit.tokens()) == Some(file)
}

/// Calls `syn::parse2::<syn::File>` on a token stream. The parser reads
/// nothing but the tokens, so the outcome is the one that `parsed_file`
/// stands for.
#[verifier::external_body]
pub(crate) fn parse_tokens(stream: proc_macro2::TokenStream) -> (parsed: Result<
    syn::File,
    syn::Error,
>)
    ensures
        parsed is Ok == parsed_file(stream_tokens(stream)) is Some,
        parsed matches Ok(file) ==> parsed_file(stream_tokens(stream)) == Some(file),
{
    syn::parse2::<syn::File>(stream)
}

/// Calls `prettyplease::unparse` on a source file. The printer reads nothing
/// but the file, so its text is the one that `file_text` stands for. It
/// panics on syntax that it does not know; a file read from the struct, enum
/// and trait declarations of a unit holds none, hence the precondition.
#[verifier::external_body]
pub(crate) fn unparse(file: &syn::File) -> (text: String)
    requires
        is_unit_file(*file),
    ensures
        text@ == file_text(*file),
{
    prettyplease::unparse(file)
}

} // verus!
