//! Small writers: the shapes of tokens that attributes are made of, and the
//! functions that append them to a stream.

use crate::token::{append, group, grouped, ident, is_word, punct, stream_tokens, string};
use crate::token::string_literal;
use crate::token::{Delimiter, Token};
use vstd::prelude::*;

verus! {

/// A word alone.
pub open spec fn word(name: Seq<char>) -> Seq<Token> {
    seq![Token::Ident(name)]
}

/// A comma.
pub open spec fn comma() -> Seq<Token> {
    seq![Token::Punct(',')]
}

/// `name = "value"`.
pub open spec fn pair(name: Seq<char>, value: Seq<char>) -> Seq<Token> {
    seq![Token::Ident(name), Token::Punct('='), Token::Literal(string_literal(value))]
}

/// `name(arguments)`.
pub open spec fn call(name: Seq<char>, arguments: Seq<Token>) -> Seq<Token> {
    seq![Token::Ident(name)] + grouped(Delimiter::Parenthesis, arguments)
}

/// `#[body]`.
pub open spec fn attribute(body: Seq<Token>) -> Seq<Token> {
    seq![Token::Punct('#')] + grouped(Delimiter::Bracket, body)
}

/// Appends a word.
pub(crate) fn push_word(out: &mut proc_macro2::TokenStream, name: &str)
    requires
        is_word(name@),
    ensures
        stream_tokens(*final(out)) == stream_tokens(*old(out)) + word(name@),
{
    append(out, ident(name));
    assert(stream_tokens(*out) =~= stream_tokens(*old(out)) + word(name@));
}

/// Appends a comma.
pub(crate) fn push_comma(out: &mut proc_macro2::TokenStream)
    ensures
        stream_tokens(*final(out)) == stream_tokens(*old(out)) + comma(),
{
    append(out, punct(','));
    assert(stream_tokens(*out) =~= stream_tokens(*old(out)) + comma());
}

/// Appends `name = "value"`.
pub(crate) fn push_pair(out: &mut proc_macro2::TokenStream, name: &str, value: &str)
    requires
        is_word(name@),
    ensures
        stream_tokens(*final(out)) == stream_tokens(*old(out)) + pair(name@, value@),
{
    append(out, ident(name));
    append(out, punct('='));
    append(out, string(value));
    assert(stream_tokens(*out) =~= stream_tokens(*old(out)) + pair(name@, value@));
}

/// Appends `name(arguments)`.
pub(crate) fn push_call(
    out: &mut proc_macro2::TokenStream,
    name: &str,
    arguments: proc_macro2::TokenStream,
)
    requires
        is_word(name@),
    ensures
        stream_tokens(*final(out)) == stream_tokens(*old(out)) + call(
            name@,
            stream_tokens(arguments),
        ),
{
    append(out, ident(name));
    append(out, group(Delimiter::Parenthesis, arguments));
    assert(stream_tokens(*out) =~= stream_tokens(*old(out)) + call(
        name@,
        stream_tokens(arguments),
    ));
}

/// Appends `#[body]`.
pub(crate) fn push_attribute(out: &mut proc_macro2::TokenStream, body: proc_macro2::TokenStream)
    ensures
        stream_tokens(*final(out)) == stream_tokens(*old(out)) + attribute(stream_tokens(body)),
{
    append(out, punct('#'));
    append(out, group(Delimiter::Bracket, body));
    assert(stream_tokens(*out) =~= stream_tokens(*old(out)) + attribute(stream_tokens(body)));
}

} // verus!
