//! Token streams: the model by which contracts speak of what a stream holds,
//! and the trusted primitives that build and read one.

use vstd::prelude::*;

verus! {

/// `proc_macro2::TokenStream`, carried as an opaque value.
#[verifier::external_type_specification]
#[verifier::external_body]
pub struct ExTokenStream(proc_macro2::TokenStream);

/// `proc_macro2::TokenTree`, carried as an opaque value.
#[verifier::external_type_specification]
#[verifier::external_body]
pub struct ExTokenTree(proc_macro2::TokenTree);

/// How a group of tokens is delimited.
#[derive(Clone, Copy, Debug, PartialEq, Eq)]
pub enum Delimiter {
    /// `( ... )`
    Parenthesis,
    /// `{ ... }`
    Brace,
    /// `[ ... ]`
    Bracket,
    /// No visible delimiter.
    Invisible,
}

/// One token of a stream. Spans and the spacing of punctuation are left out.
pub enum Token {
    /// A word: an identifier or a keyword.
    Ident(Seq<char>),
    /// One punctuation character.
    Punct(char),
    /// A literal, by its source text.
    Literal(Seq<char>),
    /// A group: its delimiter and the tokens between.
    Group(Delimiter, Seq<Token>),
}

/// One token tree, taken apart.
pub enum Shape {
    /// A group: its delimiter and its content.
    Group(Delimiter, proc_macro2::TokenStream),
    /// A literal: its source text.
    Literal(String),
    /// One punctuation character.
    Punct(char),
    /// A word: its source text.
    Word(String),
}

impl View for Shape {
    type V = Token;

    open spec fn view(&self) -> Token {
        match *self {
            Shape::Group(delimiter, content) => Token::Group(delimiter, stream_tokens(content)),
            Shape::Literal(text) => Token::Literal(text@),
            Shape::Punct(mark) => Token::Punct(mark),
            Shape::Word(name) => Token::Ident(name@),
        }
    }
}

/// The tokens that a stream holds, in order.
pub uninterp spec fn stream_tokens(stream: proc_macro2::TokenStream) -> Seq<Token>;

/// The token that a token tree is.
pub uninterp spec fn tree_token(tree: proc_macro2::TokenTree) -> Token;

/// The source text of the string literal that denotes the given text.
pub uninterp spec fn string_literal(text: Seq<char>) -> Seq<char>;

/// The punctuation characters that this crate writes.
pub open spec fn is_mark(c: char) -> bool {
    c == '#' || c == '=' || c == ','
}

/// Words made of lower-case ASCII letters, digits and underscores that start
/// with a letter. Each is a valid identifier or keyword.
pub open spec fn is_word(name: Seq<char>) -> bool {
    &&& name.len() > 0
    &&& 'a' <= name[0] <= 'z'
    &&& forall|i: int|
        0 <= i < name.len() ==> {
            let c = #[trigger] name[i];
            'a' <= c <= 'z' || '0' <= c <= '9' || c == '_'
        }
}

/// A literal written with a minus sign in front. A stream takes such a
/// literal in as two tokens, so none is appended as one.
pub open spec fn is_negative(token: Token) -> bool {
    token matches Token::Literal(text) && text.len() > 0 && text[0] == '-'
}

/// A literal whose source text starts with a double quote.
pub open spec fn is_quoted(token: Token) -> bool {
    token matches Token::Literal(text) && text.len() > 0 && text[0] == '"'
}

/// The tokens of a group: the content between its delimiters.
pub open spec fn grouped(delimiter: Delimiter, content: Seq<Token>) -> Seq<Token> {
    seq![Token::Group(delimiter, content)]
}

/// The tokens that the trees are, in order.
pub open spec fn tokens_of(trees: Seq<proc_macro2::TokenTree>) -> Seq<Token> {
    trees.map_values(|tree: proc_macro2::TokenTree| tree_token(tree))
}

/// `TokenStream::new` returns a stream without tokens.
#[verifier::external_body]
pub(crate) fn new_stream() -> (stream: proc_macro2::TokenStream)
    ensures
        stream_tokens(stream) == Seq::<Token>::empty(),
{
    proc_macro2::TokenStream::new()
}

/// `quote::TokenStreamExt::append` puts one token tree at the end of the
/// stream and leaves what the stream held in place. A literal with a minus
/// sign in front is left out: the stream would split it.
#[verifier::external_body]
pub(crate) fn append(out: &mut proc_macro2::TokenStream, tree: proc_macro2::TokenTree)
    requires
        !is_negative(tree_token(tree)),
    ensures
        stream_tokens(*final(out)) == stream_tokens(*old(out)).push(tree_token(tree)),
{
    quote::TokenStreamExt::append(out, tree);
}

/// `Punct::new` makes the punctuation token of the given character, not
/// joined to what follows. It panics on a character that is no punctuation:
/// the three that `is_mark` admits are.
#[verifier::external_body]
pub(crate) fn punct(mark: char) -> (tree: proc_macro2::TokenTree)
    requires
        is_mark(mark),
    ensures
        tree_token(tree) == Token::Punct(mark),
{
    proc_macro2::TokenTree::Punct(proc_macro2::Punct::new(mark, proc_macro2::Spacing::Alone))
}

/// `Ident::new` makes the word token of the given name, resolved at the
/// place of the macro call. It panics on a name that is no identifier: every
/// name that `is_word` admits is one.
#[verifier::external_body]
pub(crate) fn ident(name: &str) -> (tree: proc_macro2::TokenTree)
    requires
        is_word(name@),
    ensures
        tree_token(tree) == Token::Ident(name@),
{
    proc_macro2::TokenTree::Ident(proc_macro2::Ident::new(name, proc_macro2::Span::call_site()))
}

/// `Literal::string` makes the string literal that denotes the given text.
/// Its source text starts with a double quote.
#[verifier::external_body]
pub(crate) fn string(text: &str) -> (tree: proc_macro2::TokenTree)
    ensures
        tree_token(tree) == Token::Literal(string_literal(text@)),
        is_quoted(tree_token(tree)),
{
    proc_macro2::TokenTree::Literal(proc_macro2::Literal::string(text))
}

/// `Group::new` makes the group that holds the given stream between the given
/// delimiters.
#[verifier::external_body]
pub(crate) fn group(delimiter: Delimiter, content: proc_macro2::TokenStream) -> (tree:
    proc_macro2::TokenTree)
    ensures
        tree_token(tree) == Token::Group(delimiter, stream_tokens(content)),
{
    let outside = match delimiter {
        Delimiter::Parenthesis => proc_macro2::Delimiter::Parenthesis,
        Delimiter::Brace => proc_macro2::Delimiter::Brace,
        Delimiter::Bracket => proc_macro2::Delimiter::Bracket,
        Delimiter::Invisible => proc_macro2::Delimiter::None,
    };
    proc_macro2::TokenTree::Group(proc_macro2::Group::new(outside, content))
}

/// The iterator of `TokenStream` hands out the stream's token trees in order.
#[verifier::external_body]
pub(crate) fn trees_of(stream: &proc_macro2::TokenStream) -> (trees: Vec<proc_macro2::TokenTree>)
    ensures
        tokens_of(trees@) == stream_tokens(*stream),
{
    stream.clone().into_iter().collect()
}

/// Tells the variants of `TokenTree` apart: of a group, `Group::delimiter`
/// and `Group::stream` give the delimiter and the content; of a literal and
/// of a word, `to_string` gives the source text; of punctuation,
/// `Punct::as_char` gives the character.
#[verifier::external_body]
pub(crate) fn shape_of(tree: &proc_macro2::TokenTree) -> (shape: Shape)
    ensures
        tree_token(*tree) == shape@,
{
    match tree {
        proc_macro2::TokenTree::Group(inner) => Shape::Group(
            match inner.delimiter() {
                proc_macro2::Delimiter::Parenthesis => Delimiter::Parenthesis,
                proc_macro2::Delimiter::Brace => Delimiter::Brace,
                proc_macro2::Delimiter::Bracket => Delimiter::Bracket,
                proc_macro2::Delimiter::None => Delimiter::Invisible,
            },
            inner.stream(),
        ),
        proc_macro2::TokenTree::Literal(inner) => Shape::Literal(inner.to_string()),
        proc_macro2::TokenTree::Punct(inner) => Shape::Punct(inner.as_char()),
        proc_macro2::TokenTree::Ident(inner) => Shape::Word(inner.to_string()),
    }
}

} // verus!
