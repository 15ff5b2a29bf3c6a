//! Token streams of the `proc_macro2` crate: a model of what a stream holds,
//! and the operations that build one.

use vstd::prelude::*;
use crate::text::is_identifier;

verus! {

/// The token stream type of the `proc_macro2` crate.
#[verifier::external_type_specification]
#[verifier::external_body]
pub struct ExTokenStream(proc_macro2::TokenStream);

/// The brackets around a group of tokens.
#[derive(Debug, Clone, Copy, PartialEq, Eq, Structural)]
pub enum Delimiter {
    /// Round brackets.
    Parenthesis,
    /// Curly brackets.
    Brace,
    /// Square brackets.
    Bracket,
}

/// Whether a punctuation character is joined to the punctuation after it.
#[derive(Debug, Clone, Copy, PartialEq, Eq, Structural)]
pub enum Spacing {
    /// The character stands alone.
    Alone,
    /// The character and the next one form one operator.
    Joint,
}

/// One token of a stream.
pub enum Token {
    /// An identifier or a keyword.
    Ident(Seq<char>),
    /// A punctuation character.
    Punct(char, Spacing),
    /// An integer literal with the suffix `u32`.
    U32(u32),
    /// A bracketed group of tokens.
    Group(Delimiter, Seq<Token>),
}

/// The tokens that a stream holds, in order.
pub uninterp spec fn stream_tokens(stream: proc_macro2::TokenStream) -> Seq<Token>;

/// The punctuation characters that a token may hold.
pub open spec fn is_punctuation(c: char) -> bool {
    c == '!' || c == '#' || c == '$' || c == '%' || c == '&' || c == '\'' || c == '*' || c == '+'
        || c == ',' || c == '-' || c == '.' || c == '/' || c == ':' || c == ';' || c == '<' || c
        == '=' || c == '>' || c == '?' || c == '@' || c == '^' || c == '|' || c == '~'
}

/// `proc_macro2::TokenStream::new` returns a stream without tokens.
pub assume_specification[ proc_macro2::TokenStream::new ]() -> (stream: proc_macro2::TokenStream)
    ensures
        stream_tokens(stream) == Seq::<Token>::empty(),
;

/// Appends an identifier made by `proc_macro2::Ident::new`, which panics
/// unless the name is an identifier, hence the precondition; the token goes
/// to the end of the stream through `Extend`.
#[verifier::external_body]
pub(crate) fn push_ident(stream: &mut proc_macro2::TokenStream, name: &str)
    requires
        is_identifier(name@),
    ensures
        stream_tokens(*final(stream)) == stream_tokens(*old(stream)).push(Token::Ident(name@)),
{
    let ident = proc_macro2::Ident::new(name, proc_macro2::Span::call_site());
    stream.extend([proc_macro2::TokenTree::Ident(ident)]);
}

/// Appends a punctuation character made by `proc_macro2::Punct::new`, which
/// panics on a character outside its list, hence the precondition; the token
/// goes to the end of the stream through `Extend`.
#[verifier::external_body]
pub(crate) fn push_punct(stream: &mut proc_macro2::TokenStream, c: char, spacing: Spacing)
    requires
        is_punctuation(c),
    ensures
        stream_tokens(*final(stream)) == stream_tokens(*old(stream)).push(Token::Punct(c, spacing)),
{
    let spacing = match spacing {
        Spacing::Alone => proc_macro2::Spacing::Alone,
        Spacing::Joint => proc_macro2::Spacing::Joint,
    };
    stream.extend([proc_macro2::TokenTree::Punct(proc_macro2::Punct::new(c, spacing))]);
}

/// Appends the literal that `proc_macro2::Literal::u32_suffixed` makes of a
/// number; the token goes to the end of the stream through `Extend`.
#[verifier::external_body]
pub(crate) fn push_u32(stream: &mut proc_macro2::TokenStream, number: u32)
    ensures
        stream_tokens(*final(stream)) == stream_tokens(*old(stream)).push(Token::U32(number)),
{
    let literal = proc_macro2::Literal::u32_suffixed(number);
    stream.extend([proc_macro2::TokenTree::Literal(literal)]);
}

/// Appends the group that `proc_macro2::Group::new` makes of a delimiter and
/// an inner stream; the token goes to the end of the stream through `Extend`.
#[verifier::external_body]
pub(crate) fn push_group(
    stream: &mut proc_macro2::TokenStream,
    delimiter: Delimiter,
    inner: proc_macro2::TokenStream,
)
    ensures
        stream_tokens(*final(stream)) == stream_tokens(*old(stream)).push(
            Token::Group(delimiter, stream_tokens(inner)),
        ),
{
    let delimiter = match delimiter {
        Delimiter::Parenthesis => proc_macro2::Delimiter::Parenthesis,
        Delimiter::Brace => proc_macro2::Delimiter::Brace,
        Delimiter::Bracket => proc_macro2::Delimiter::Bracket,
    };
    stream.extend([proc_macro2::TokenTree::Group(proc_macro2::Group::new(delimiter, inner))]);
}

/// Appends all tokens of another stream, in order, through the `Extend`
/// impl of `proc_macro2::TokenStream` for streams.
#[verifier::external_body]
pub(crate) fn append_stream(stream: &mut proc_macro2::TokenStream, more: proc_macro2::TokenStream)
    ensures
        stream_tokens(*final(stream)) == stream_tokens(*old(stream)) + stream_tokens(more),
{
    stream.extend([more]);
}

} // verus!
