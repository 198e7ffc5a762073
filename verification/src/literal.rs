//! Which literals the parser knows, and which streams it therefore reads
//! without giving up.
//!
//! The parser takes a literal for a string, a byte string, a byte, a
//! character or a number, and stops the program on any other. A stream is
//! readable when every literal that the parser may look at is of a form it
//! knows. Two kinds of group are passed over unread while an item is parsed,
//! and are left out here: the bracket of an attribute, behind `#` or `#!`,
//! and the body of a macro invocation, behind `name !` or behind
//! `macro_rules ! name`.

use crate::text::{chars_of, same_text};
use crate::token::{shape_of, stream_tokens, tokens_of, trees_of, Delimiter, Shape, Token};
use vstd::prelude::*;

verus! {

/// An ASCII digit.
pub open spec fn is_digit(c: char) -> bool {
    '0' <= c <= '9'
}

/// An ASCII letter, an ASCII digit or an underscore.
pub open spec fn is_alnum(c: char) -> bool {
    'a' <= c <= 'z' || 'A' <= c <= 'Z' || '0' <= c <= '9' || c == '_'
}

/// What may stand before the point or the exponent of a number.
pub open spec fn is_mantissa(c: char) -> bool {
    is_digit(c) || c == '_' || c == '.'
}

/// The character at `i` may stand there in a number: a letter, a digit or
/// an underscore anywhere; a point behind digits and underscores alone; a
/// sign behind the `e` that follows digits, underscores and at most one
/// point, and before a digit.
pub open spec fn number_char(text: Seq<char>, i: int) -> bool {
    let c = text[i];
    ||| is_alnum(c)
    ||| c == '.' && forall|j: int| 0 <= j < i ==> is_digit(#[trigger] text[j]) || text[j] == '_'
    ||| (c == '+' || c == '-') && i >= 1 && (text[i - 1] == 'e' || text[i - 1] == 'E') && i + 1
        < text.len() && is_digit(text[i + 1]) && forall|j: int|
        0 <= j < i - 1 ==> is_mantissa(#[trigger] text[j])
}

/// A number of a form that the parser knows: it starts with a digit, and
/// every character may stand where it does.
pub open spec fn known_number(text: Seq<char>) -> bool {
    &&& text.len() > 0
    &&& is_digit(text[0])
    &&& forall|i: int| 0 <= i < text.len() ==> #[trigger] number_char(text, i)
}

/// A literal of a form that the parser knows, told by how its source text
/// starts: a string (`"`, `r`), a byte string or a byte (`b"`, `br`, `b'`),
/// a character (`'`), or a number.
pub open spec fn known_literal(text: Seq<char>) -> bool {
    text.len() > 0 && {
        ||| text[0] == '"'
        ||| text[0] == 'r'
        ||| text[0] == '\''
        ||| text[0] == 'b' && text.len() > 1 && (text[1] == '"' || text[1] == 'r' || text[1]
            == '\'')
        ||| known_number(text)
    }
}

/// The name that introduces the definition of a macro by rules.
pub const MACRO_RULES: &'static str = "macro_rules";

/// A word that is a keyword, in some edition of the language or to the
/// parser. Behind one, `!` negates what follows, so a group there is no
/// macro's body.
pub open spec fn is_keyword(name: Seq<char>) -> bool {
    ||| name == "_"@
    ||| name == "abstract"@
    ||| name == "as"@
    ||| name == "async"@
    ||| name == "await"@
    ||| name == "become"@
    ||| name == "box"@
    ||| name == "break"@
    ||| name == "const"@
    ||| name == "continue"@
    ||| name == "crate"@
    ||| name == "do"@
    ||| name == "dyn"@
    ||| name == "else"@
    ||| name == "enum"@
    ||| name == "extern"@
    ||| name == "false"@
    ||| name == "final"@
    ||| name == "fn"@
    ||| name == "for"@
    ||| name == "gen"@
    ||| name == "if"@
    ||| name == "impl"@
    ||| name == "in"@
    ||| name == "let"@
    ||| name == "loop"@
    ||| name == "macro"@
    ||| name == "match"@
    ||| name == "mod"@
    ||| name == "move"@
    ||| name == "mut"@
    ||| name == "override"@
    ||| name == "priv"@
    ||| name == "pub"@
    ||| name == "ref"@
    ||| name == "return"@
    ||| name == "Self"@
    ||| name == "self"@
    ||| name == "static"@
    ||| name == "struct"@
    ||| name == "super"@
    ||| name == "trait"@
    ||| name == "true"@
    ||| name == "try"@
    ||| name == "type"@
    ||| name == "typeof"@
    ||| name == "unsafe"@
    ||| name == "unsized"@
    ||| name == "use"@
    ||| name == "virtual"@
    ||| name == "where"@
    ||| name == "while"@
    ||| name == "yield"@
}

/// Every keyword but `_` is a word of two to eight letters, all of them
/// lower-case but for the `S` of `Self`.
pub proof fn lemma_keyword_shape(name: Seq<char>)
    requires
        is_keyword(name),
    ensures
        name == "_"@ || (2 <= name.len() <= 8 && forall|i: int|
            0 <= i < name.len() ==> 'a' <= #[trigger] name[i] <= 'z' || name[i] == 'S'),
{
    reveal_strlit("_");
    reveal_strlit("abstract");
    reveal_strlit("as");
    reveal_strlit("async");
    reveal_strlit("await");
    reveal_strlit("become");
    reveal_strlit("box");
    reveal_strlit("break");
    reveal_strlit("const");
    reveal_strlit("continue");
    reveal_strlit("crate");
    reveal_strlit("do");
    reveal_strlit("dyn");
    reveal_strlit("else");
    reveal_strlit("enum");
    reveal_strlit("extern");
    reveal_strlit("false");
    reveal_strlit("final");
    reveal_strlit("fn");
    reveal_strlit("for");
    reveal_strlit("gen");
    reveal_strlit("if");
    reveal_strlit("impl");
    reveal_strlit("in");
    reveal_strlit("let");
    reveal_strlit("loop");
    reveal_strlit("macro");
    reveal_strlit("match");
    reveal_strlit("mod");
    reveal_strlit("move");
    reveal_strlit("mut");
    reveal_strlit("override");
    reveal_strlit("priv");
    reveal_strlit("pub");
    reveal_strlit("ref");
    reveal_strlit("return");
    reveal_strlit("Self");
    reveal_strlit("self");
    reveal_strlit("static");
    reveal_strlit("struct");
    reveal_strlit("super");
    reveal_strlit("trait");
    reveal_strlit("true");
    reveal_strlit("try");
    reveal_strlit("type");
    reveal_strlit("typeof");
    reveal_strlit("unsafe");
    reveal_strlit("unsized");
    reveal_strlit("use");
    reveal_strlit("virtual");
    reveal_strlit("where");
    reveal_strlit("while");
    reveal_strlit("yield");
}

/// The token at `k` is the punctuation character `mark`.
pub open spec fn punct_at(tokens: Seq<Token>, k: int, mark: char) -> bool {
    0 <= k < tokens.len() && tokens[k] == Token::Punct(mark)
}

/// The token at `k` is the word `name`.
pub open spec fn word_at(tokens: Seq<Token>, k: int, name: Seq<char>) -> bool {
    0 <= k < tokens.len() && tokens[k] == Token::Ident(name)
}

/// The token at `k` is a word.
pub open spec fn any_word_at(tokens: Seq<Token>, k: int) -> bool {
    0 <= k < tokens.len() && tokens[k] is Ident
}

/// The token at `k` is a word that is no keyword.
pub open spec fn name_at(tokens: Seq<Token>, k: int) -> bool {
    0 <= k < tokens.len() && match tokens[k] {
        Token::Ident(name) => !is_keyword(name),
        _ => false,
    }
}

/// The word at `k` is no label: no `'` stands before it. Where `open` says
/// that the tokens are the content of a group without delimiters, what
/// stands before the first token is not known; nor is what such a group
/// ends with.
pub open spec fn unlabelled(tokens: Seq<Token>, k: int, open: bool) -> bool {
    if k == 0 {
        !open
    } else {
        0 < k <= tokens.len() && match tokens[k - 1] {
            Token::Punct(mark) => mark != '\'',
            Token::Group(delimiter, _) => delimiter != Delimiter::Invisible,
            _ => true,
        }
    }
}

/// The group at `i` is the bracket of an attribute: it stands directly
/// behind `#` or `#!`.
pub open spec fn attribute_body(tokens: Seq<Token>, i: int) -> bool {
    ||| punct_at(tokens, i - 1, '#')
    ||| punct_at(tokens, i - 1, '!') && punct_at(tokens, i - 2, '#')
}

/// The group at `i` is the body of a macro invocation: it stands behind
/// `name !`, or behind `macro_rules ! name`, where the first word is no
/// keyword and no label.
pub open spec fn macro_body(tokens: Seq<Token>, i: int, open: bool) -> bool {
    ||| punct_at(tokens, i - 1, '!') && name_at(tokens, i - 2) && unlabelled(tokens, i - 2, open)
    ||| any_word_at(tokens, i - 1) && punct_at(tokens, i - 2, '!') && word_at(
        tokens,
        i - 3,
        MACRO_RULES@,
    ) && unlabelled(tokens, i - 3, open)
}

/// The group at `i`, with the given delimiter, is passed over unread.
pub open spec fn passed_over(tokens: Seq<Token>, i: int, delimiter: Delimiter, open: bool) -> bool {
    ||| delimiter == Delimiter::Bracket && attribute_body(tokens, i)
    ||| delimiter != Delimiter::Invisible && macro_body(tokens, i, open)
}

/// Every token is read without trouble: a literal is of a known form, and a
/// group is passed over unread or readable itself. `open` says that the
/// tokens are the content of a group without delimiters.
pub open spec fn readable_in(tokens: Seq<Token>, open: bool) -> bool
    decreases tokens,
{
    forall|i: int|
        0 <= i < tokens.len() ==> match #[trigger] tokens[i] {
            Token::Literal(text) => known_literal(text),
            Token::Group(delimiter, content) => passed_over(tokens, i, delimiter, open)
                || readable_in(content, delimiter == Delimiter::Invisible),
            _ => true,
        }
}

/// The token at `i` is read without trouble.
pub open spec fn readable_at(tokens: Seq<Token>, i: int, open: bool) -> bool {
    match tokens[i] {
        Token::Literal(text) => known_literal(text),
        Token::Group(delimiter, content) => passed_over(tokens, i, delimiter, open) || readable_in(
            content,
            delimiter == Delimiter::Invisible,
        ),
        _ => true,
    }
}

/// Every token of a whole stream is read without trouble.
pub open spec fn readable(tokens: Seq<Token>) -> bool {
    readable_in(tokens, false)
}

/// Tells whether `c` is an ASCII digit.
fn digit(c: char) -> (yes: bool)
    ensures
        yes == is_digit(c),
{
    '0' <= c && c <= '9'
}

/// Tells whether `c` is an ASCII letter, an ASCII digit or an underscore.
fn alnum(c: char) -> (yes: bool)
    ensures
        yes == is_alnum(c),
{
    ('a' <= c && c <= 'z') || ('A' <= c && c <= 'Z') || ('0' <= c && c <= '9') || c == '_'
}

/// Tells whether the text is a number of a form that the parser knows.
pub fn is_known_number(text: &str) -> (yes: bool)
    ensures
        yes == known_number(text@),
{
    let chars = chars_of(text);
    if chars.len() == 0 || !digit(chars[0]) {
        return false;
    }
    // Whether all characters so far are digits or underscores; whether all
    // are digits, underscores or points; and the same without the last one.
    let mut plain = true;
    let mut mantissa = true;
    let mut mantissa_before = true;
    let mut i: usize = 0;
    while i < chars.len()
        invariant
            chars@ == text@,
            i <= chars.len(),
            forall|j: int| 0 <= j < i ==> #[trigger] number_char(text@, j),
            plain == forall|j: int| 0 <= j < i ==> is_digit(#[trigger] text@[j]) || text@[j] == '_',
            mantissa == forall|j: int| 0 <= j < i ==> is_mantissa(#[trigger] text@[j]),
            mantissa_before == forall|j: int| 0 <= j < i - 1 ==> is_mantissa(#[trigger] text@[j]),
        decreases chars.len() - i,
    {
        let c = chars[i];
        let ok = if alnum(c) {
            true
        } else if c == '.' {
            plain
        } else if c == '+' || c == '-' {
            i >= 1 && (chars[i - 1] == 'e' || chars[i - 1] == 'E') && i + 1 < chars.len() && digit(
                chars[i + 1],
            ) && mantissa_before
        } else {
            false
        };
        assert(ok == number_char(text@, i as int));
        if !ok {
            return false;
        }
        mantissa_before = mantissa;
        mantissa = mantissa && (digit(c) || c == '_' || c == '.');
        plain = plain && (digit(c) || c == '_');
        i = i + 1;
    }
    true
}

/// Tells whether the text is a literal of a form that the parser knows.
pub fn is_known_literal(text: &str) -> (yes: bool)
    ensures
        yes == known_literal(text@),
{
    let chars = chars_of(text);
    if chars.len() == 0 {
        return false;
    }
    let first = chars[0];
    if first == '"' || first == 'r' || first == '\'' {
        return true;
    }
    if first == 'b' && chars.len() > 1 && (chars[1] == '"' || chars[1] == 'r' || chars[1] == '\'') {
        return true;
    }
    is_known_number(text)
}

/// Tells whether the word is, or may be read as, a keyword.
pub fn keyword(name: &str) -> (yes: bool)
    ensures
        yes == is_keyword(name@),
{
    same_text(name, "_") || same_text(name, "abstract") || same_text(name, "as")
        || same_text(name, "async") || same_text(name, "await") || same_text(name, "become")
        || same_text(name, "box") || same_text(name, "break") || same_text(name, "const")
        || same_text(name, "continue") || same_text(name, "crate") || same_text(name, "do")
        || same_text(name, "dyn") || same_text(name, "else") || same_text(name, "enum")
        || same_text(name, "extern") || same_text(name, "false") || same_text(name, "final")
        || same_text(name, "fn") || same_text(name, "for") || same_text(name, "gen")
        || same_text(name, "if") || same_text(name, "impl") || same_text(name, "in")
        || same_text(name, "let") || same_text(name, "loop") || same_text(name, "macro")
        || same_text(name, "match") || same_text(name, "mod") || same_text(name, "move")
        || same_text(name, "mut") || same_text(name, "override") || same_text(name, "priv")
        || same_text(name, "pub") || same_text(name, "ref") || same_text(name, "return")
        || same_text(name, "Self") || same_text(name, "self") || same_text(name, "static")
        || same_text(name, "struct") || same_text(name, "super") || same_text(name, "trait")
        || same_text(name, "true") || same_text(name, "try") || same_text(name, "type")
        || same_text(name, "typeof") || same_text(name, "unsafe") || same_text(name, "unsized")
        || same_text(name, "use") || same_text(name, "virtual") || same_text(name, "where")
        || same_text(name, "while") || same_text(name, "yield")
}

/// Tells whether the tree at `k` is the punctuation character `mark`.
fn is_punct_at(trees: &Vec<proc_macro2::TokenTree>, k: usize, mark: char) -> (yes: bool)
    requires
        k < trees.len(),
    ensures
        yes == punct_at(tokens_of(trees@), k as int, mark),
{
    match shape_of(&trees[k]) {
        Shape::Punct(found) => found == mark,
        _ => false,
    }
}

/// Tells whether the tree at `k` is the word `name`.
fn is_word_at(trees: &Vec<proc_macro2::TokenTree>, k: usize, name: &str) -> (yes: bool)
    requires
        k < trees.len(),
    ensures
        yes == word_at(tokens_of(trees@), k as int, name@),
{
    match shape_of(&trees[k]) {
        Shape::Word(found) => same_text(found.as_str(), name),
        _ => false,
    }
}

/// Tells whether the tree at `k` is a word.
fn is_any_word_at(trees: &Vec<proc_macro2::TokenTree>, k: usize) -> (yes: bool)
    requires
        k < trees.len(),
    ensures
        yes == any_word_at(tokens_of(trees@), k as int),
{
    match shape_of(&trees[k]) {
        Shape::Word(_) => true,
        _ => false,
    }
}

/// Tells whether the tree at `k` is a word that is no keyword.
fn is_name_at(trees: &Vec<proc_macro2::TokenTree>, k: usize) -> (yes: bool)
    requires
        k < trees.len(),
    ensures
        yes == name_at(tokens_of(trees@), k as int),
{
    match shape_of(&trees[k]) {
        Shape::Word(found) => !keyword(found.as_str()),
        _ => false,
    }
}

/// Tells whether the word at `k` is no label.
fn is_unlabelled(trees: &Vec<proc_macro2::TokenTree>, k: usize, open: bool) -> (yes: bool)
    requires
        k < trees.len(),
    ensures
        yes == unlabelled(tokens_of(trees@), k as int, open),
{
    if k == 0 {
        !open
    } else {
        match shape_of(&trees[k - 1]) {
            Shape::Punct(mark) => mark != '\'',
            Shape::Group(delimiter, _) => match delimiter {
                Delimiter::Invisible => false,
                _ => true,
            },
            _ => true,
        }
    }
}

/// Tells whether the group at `i` is the bracket of an attribute.
fn is_attribute_body(trees: &Vec<proc_macro2::TokenTree>, i: usize) -> (yes: bool)
    requires
        i < trees.len(),
    ensures
        yes == attribute_body(tokens_of(trees@), i as int),
{
    if i >= 1 && is_punct_at(trees, i - 1, '#') {
        return true;
    }
    i >= 2 && is_punct_at(trees, i - 1, '!') && is_punct_at(trees, i - 2, '#')
}

/// Tells whether the group at `i` is the body of a macro invocation.
fn is_macro_body(trees: &Vec<proc_macro2::TokenTree>, i: usize, open: bool) -> (yes: bool)
    requires
        i < trees.len(),
    ensures
        yes == macro_body(tokens_of(trees@), i as int, open),
{
    if i >= 2 && is_punct_at(trees, i - 1, '!') && is_name_at(trees, i - 2) && is_unlabelled(
        trees,
        i - 2,
        open,
    ) {
        return true;
    }
    i >= 3 && is_any_word_at(trees, i - 1) && is_punct_at(trees, i - 2, '!') && is_word_at(
        trees,
        i - 3,
        MACRO_RULES,
    ) && is_unlabelled(trees, i - 3, open)
}

/// Tells whether the group at `i`, with the given delimiter, is passed over
/// unread.
fn is_passed_over(
    trees: &Vec<proc_macro2::TokenTree>,
    i: usize,
    delimiter: Delimiter,
    open: bool,
) -> (yes: bool)
    requires
        i < trees.len(),
    ensures
        yes == passed_over(tokens_of(trees@), i as int, delimiter, open),
{
    match delimiter {
        Delimiter::Invisible => false,
        Delimiter::Bracket => is_attribute_body(trees, i) || is_macro_body(trees, i, open),
        _ => is_macro_body(trees, i, open),
    }
}

/// Tells whether every token of the stream is read without trouble, where
/// `open` says that the stream is the content of a group without
/// delimiters.
fn is_readable_in(stream: &proc_macro2::TokenStream, open: bool) -> (yes: bool)
    ensures
        yes == readable_in(stream_tokens(*stream), open),
    decreases stream_tokens(*stream),
{
    let trees = trees_of(stream);
    let ghost tokens = stream_tokens(*stream);
    let mut i: usize = 0;
    assert(tokens.len() == trees@.len()) by {
        assert(tokens_of(trees@).len() == trees@.len());
    }
    while i < trees.len()
        invariant
            tokens == stream_tokens(*stream),
            tokens_of(trees@) == tokens,
            tokens.len() == trees.len(),
            i <= trees.len(),
            forall|j: int| 0 <= j < i ==> #[trigger] readable_at(tokens, j, open),
        decreases trees.len() - i,
    {
        assert(tokens[i as int] == tokens_of(trees@)[i as int]);
        match shape_of(&trees[i]) {
            Shape::Group(delimiter, content) => {
                if !is_passed_over(&trees, i, delimiter, open) {
                    assert(tokens[i as int] == Token::Group(delimiter, stream_tokens(content)));
                    assert(decreases_to!(tokens => tokens[i as int]));
                    assert(decreases_to!(tokens[i as int] => tokens[i as int]->Group_1));
                    let inner_open = match delimiter {
                        Delimiter::Invisible => true,
                        _ => false,
                    };
                    if !is_readable_in(&content, inner_open) {
                        assert(!readable_at(tokens, i as int, open));
                        assert(!readable_in(tokens, open));
                        return false;
                    }
                }
            },
            Shape::Literal(text) => {
                if !is_known_literal(text.as_str()) {
                    assert(!readable_at(tokens, i as int, open));
                    assert(!readable_in(tokens, open));
                    return false;
                }
            },
            _ => {},
        }
        assert(readable_at(tokens, i as int, open));
        i = i + 1;
    }
    assert forall|j: int| 0 <= j < tokens.len() implies match #[trigger] tokens[j] {
        Token::Literal(text) => known_literal(text),
        Token::Group(delimiter, content) => passed_over(tokens, j, delimiter, open) || readable_in(
            content,
            delimiter == Delimiter::Invisible,
        ),
        _ => true,
    } by {
        assert(readable_at(tokens, j, open));
    }
    true
}

/// Tells whether every token of a whole stream is read without trouble.
pub fn is_readable(stream: &proc_macro2::TokenStream) -> (yes: bool)
    ensures
        yes == readable(stream_tokens(*stream)),
{
    is_readable_in(stream, false)
}

} // verus!
