//! The rewriter: from an item marked unstable to its two guarded renditions.

use crate::attribute::{collect_doc_lines, doc_lines, views, Meta, Outline, Style};
use crate::guard::{compiled, lemma_compiled, push_guard, Build, Guard};
use crate::literal::{is_readable, readable};
use crate::notice::{compose_doc, deprecation_tokens, doc_text, doc_tokens};
use crate::notice::{push_deprecation, push_doc, FUNCTION_BANNER, MODULE_BANNER, STRUCT_BANNER};
use crate::emit::push_word;
use crate::syntax::{append_attribute, append_declaration, append_item, attributes_of};
use crate::syntax::{content_of, error_at, error_message};
use crate::syntax::{error_span, inner_attributes, item_attributes, item_declaration, item_kind};
use crate::syntax::{item_span, item_tokens, item_visibility, kind_of, meta_of, outer_tokens};
use crate::syntax::{outline, outlines, parse_item, parsed, retained, style_of, visibility_of};
use crate::syntax::{ItemKind, Visibility};
use crate::token::is_word;
use crate::token::{new_stream, stream_tokens, Token};
use vstd::prelude::*;

verus! {

/// The word that declares an item public.
pub const PUB: &'static str = "pub";

/// The message that rejects an item that is public as written.
pub const ALREADY_PUBLIC: &'static str = "already public, cannot be marked unstable";

/// The message that rejects an item of a kind that cannot be marked.
pub const NOT_SUPPORTED: &'static str = "not supported in this position";

/// The banner that closes the documentation of an item of the given kind.
pub open spec fn banner_of(kind: ItemKind) -> Seq<char> {
    match kind {
        ItemKind::Function => FUNCTION_BANNER@,
        ItemKind::Module => MODULE_BANNER@,
        ItemKind::Structure => STRUCT_BANNER@,
        ItemKind::Other => Seq::empty(),
    }
}

/// The documentation of the public rendition of `item`, closed by `banner`.
pub open spec fn public_doc(item: syn::Item, banner: Seq<char>) -> Seq<char> {
    doc_text(doc_lines(outlines(item_attributes(item))), banner)
}

/// What the public rendition of `item` is printed as: the outer attributes
/// that it keeps, the word `pub`, and the declaration of `item`, which
/// holds the inner attributes.
pub open spec fn public_tokens(item: syn::Item) -> Seq<Token> {
    outer_tokens(retained(item_attributes(item))) + seq![Token::Ident(PUB@)] + item_declaration(
        item,
    )
}

/// What stands behind the guard of the public rendition: the deprecation,
/// the composed documentation, and the public rendition of `item`.
pub open spec fn public_rendition_tokens(item: syn::Item, banner: Seq<char>) -> Seq<Token> {
    deprecation_tokens() + doc_tokens(public_doc(item, banner)) + public_tokens(item)
}

/// A rendition under its guard.
pub open spec fn guarded(guard: Guard, rendition: Seq<Token>) -> Seq<Token> {
    guard.tokens() + rendition
}

/// The two renditions, each under its guard: first the public one, marked
/// deprecated in generated documentation and documented by `doc`; then the
/// hidden one.
pub open spec fn expansion(doc: Seq<char>, exposed: Seq<Token>, hidden: Seq<Token>) -> Seq<
    Token,
> {
    guarded(Guard::Exposed, deprecation_tokens() + doc_tokens(doc) + exposed) + guarded(
        Guard::Hidden,
        hidden,
    )
}

/// `out` holds the expansion of `item`: its public rendition with the
/// composed documentation, and `item` itself as it was given.
pub open spec fn expands(
    item: syn::Item,
    banner: Seq<char>,
    out: proc_macro2::TokenStream,
) -> bool {
    stream_tokens(out) == expansion(
        public_doc(item, banner),
        public_tokens(item),
        item_tokens(item),
    )
}

/// `result` is the rejection of `item` with the given message, pointing at
/// the item's source location.
pub open spec fn rejects(
    result: Result<proc_macro2::TokenStream, syn::Error>,
    item: syn::Item,
    message: Seq<char>,
) -> bool {
    result matches Err(error) && error_message(error) == message && error_span(error)
        == item_span(item)
}

/// `result` is the expansion of `item`, documented with `banner` at the end.
pub open spec fn accepts(
    result: Result<proc_macro2::TokenStream, syn::Error>,
    item: syn::Item,
    banner: Seq<char>,
) -> bool {
    result matches Ok(out) && expands(item, banner, out)
}

/// What rewriting a function, module or structure yields: a rejection where
/// the item is public as written, its expansion otherwise.
pub open spec fn rewrites(
    item: syn::Item,
    banner: Seq<char>,
    result: Result<proc_macro2::TokenStream, syn::Error>,
) -> bool {
    if item_visibility(item) == Visibility::Public {
        rejects(result, item, ALREADY_PUBLIC@)
    } else {
        accepts(result, item, banner)
    }
}

/// What rewriting an item of any kind yields.
///
/// An item that is no function, module or structure is rejected as not
/// supported, whatever its visibility. A function, module or structure that
/// is public as written is rejected as already public. Every other one is
/// expanded, its documentation closed by the banner of its kind.
pub open spec fn dispatches(
    item: syn::Item,
    result: Result<proc_macro2::TokenStream, syn::Error>,
) -> bool {
    let kind = item_kind(item);
    let public = item_visibility(item) == Visibility::Public;
    &&& kind == ItemKind::Other ==> rejects(result, item, NOT_SUPPORTED@)
    &&& kind != ItemKind::Other && public ==> rejects(result, item, ALREADY_PUBLIC@)
    &&& kind != ItemKind::Other && !public ==> accepts(result, item, banner_of(kind))
}

/// What rewriting a stream yields: the parser's error where the stream is
/// no item, and else what rewriting the item yields.
pub open spec fn outcome(
    tokens: proc_macro2::TokenStream,
    result: Result<proc_macro2::TokenStream, syn::Error>,
) -> bool {
    match parsed(tokens) {
        Err(error) => result == Err::<proc_macro2::TokenStream, syn::Error>(error),
        Ok(item) => dispatches(item, result),
    }
}

/// Reads what the rewriter looks at in an attribute. The content of an
/// inner attribute is not read, nor is content that holds a literal of a
/// form that the parser does not know.
fn read_outline(attr: &syn::Attribute) -> (read: Outline)
    ensures
        read@ == outline(*attr),
{
    match style_of(attr) {
        Style::Inner => Outline { style: Style::Inner, meta: Meta::Unread },
        Style::Outer => {
            let content = content_of(attr);
            if is_readable(&content) {
                Outline { style: Style::Outer, meta: meta_of(attr) }
            } else {
                Outline { style: Style::Outer, meta: Meta::Unread }
            }
        },
    }
}

/// Reads what the rewriter looks at in each attribute.
fn read_outlines(attrs: &Vec<syn::Attribute>) -> (outlined: Vec<Outline>)
    ensures
        views(outlined@) == outlines(attrs@),
{
    let mut outlined: Vec<Outline> = Vec::new();
    let mut i: usize = 0;
    while i < attrs.len()
        invariant
            i <= attrs.len(),
            outlined.len() == i,
            views(outlined@) == outlines(attrs@.take(i as int)),
        decreases attrs.len() - i,
    {
        let ghost before = outlined@;
        let read = read_outline(&attrs[i]);
        outlined.push(read);
        assert forall|j: int| 0 <= j <= i implies views(outlined@)[j] == outline(
            attrs@[j],
        ) by {
            if j < i {
                assert(views(before)[j] == outlines(attrs@.take(i as int))[j]);
            } else {
                assert(outlined@[j] == read);
            }
        }
        assert(views(outlined@) =~= outlines(attrs@.take(i + 1)));
        i = i + 1;
    }
    assert(attrs@.take(attrs.len() as int) =~= attrs@);
    outlined
}

/// Prints the outer attributes that the public rendition keeps, and hands
/// back the inner attributes, which are printed with the declaration.
fn push_kept(out: &mut proc_macro2::TokenStream, attrs: Vec<syn::Attribute>, outlined: &Vec<Outline>) -> (inner:
    Vec<syn::Attribute>)
    requires
        views(outlined@) == outlines(attrs@),
    ensures
        stream_tokens(*final(out)) == stream_tokens(*old(out)) + outer_tokens(retained(attrs@)),
        inner@ == inner_attributes(attrs@),
{
    let mut inner: Vec<syn::Attribute> = Vec::new();
    let ghost all = attrs@;
    let ghost start = stream_tokens(*out);
    assert(outlined@.len() == all.len()) by {
        assert(views(outlined@).len() == outlines(all).len());
    }
    assert(all.take(0) =~= Seq::<syn::Attribute>::empty());
    assert(stream_tokens(*out) =~= start + outer_tokens(retained(all.take(0))));
    let n: usize = attrs.len();
    let mut i: usize = 0;
    for attr in it: attrs
        invariant
            it.seq() == all,
            all.len() == n,
            i == it.index(),
            outlined@.len() == all.len(),
            views(outlined@) == outlines(all),
            stream_tokens(*out) == start + outer_tokens(retained(all.take(i as int))),
            inner@ == inner_attributes(all.take(i as int)),
    {
        let ghost before = all.take(i as int);
        let ghost after = all.take(i + 1);
        let ghost kept = retained(before);
        proof {
            reveal(Seq::filter);
            assert(after.drop_last() =~= before);
            assert(after.last() == attr);
            assert(outlined@[i as int]@ == views(outlined@)[i as int]);
            assert(outlines(all)[i as int] == outline(attr));
            if outline(attr).is_retained() {
                assert(retained(after).drop_last() =~= kept);
            }
        }
        match outlined[i].style {
            Style::Inner => {
                assert(retained(after) == kept.push(attr));
                assert(stream_tokens(*out) =~= start + outer_tokens(retained(after)));
                inner.push(attr);
            },
            Style::Outer => {
                if outlined[i].is_retained() {
                    append_attribute(out, &attr);
                    assert(stream_tokens(*out) =~= start + outer_tokens(retained(after)));
                }
            },
        }
        i = i + 1;
    }
    assert(all.take(all.len() as int) =~= all);
    inner
}

/// The word that declares an item public is a word.
proof fn lemma_pub_is_a_word()
    ensures
        is_word(PUB@),
{
    reveal_strlit("pub");
}

/// Rewrites a function, module or structure whose documentation closes with
/// `banner`.
fn rewrite(item: syn::Item, banner: &str) -> (result: Result<proc_macro2::TokenStream, syn::Error>)
    requires
        item_kind(item) != ItemKind::Other,
    ensures
        rewrites(item, banner@, result),
{
    match visibility_of(&item) {
        Visibility::Public => { return Err(error_at(&item, ALREADY_PUBLIC)); },
        _ => {},
    }
    let attrs = attributes_of(&item);
    let outlined = read_outlines(&attrs);
    let lines = collect_doc_lines(&outlined);
    let doc = compose_doc(lines, banner);
    let mut out = new_stream();
    push_guard(&mut out, Guard::Exposed);
    push_deprecation(&mut out);
    push_doc(&mut out, doc.as_str());
    let inner = push_kept(&mut out, attrs, &outlined);
    proof {
        lemma_pub_is_a_word();
    }
    push_word(&mut out, PUB);
    append_declaration(&mut out, &item, inner);
    push_guard(&mut out, Guard::Hidden);
    append_item(&mut out, &item);
    assert(stream_tokens(out) =~= expansion(
        public_doc(item, banner@),
        public_tokens(item),
        item_tokens(item),
    ));
    Ok(out)
}

/// Rewrites a function marked unstable.
///
/// A function that is public as written is rejected. Any other is emitted
/// twice: public, documented and flagged as unstable, for builds that enable
/// the feature `unstable` or generate documentation; and as written for all
/// other builds.
pub fn unstable_item_fn(item_fn: syn::Item) -> (result: Result<proc_macro2::TokenStream, syn::Error>)
    requires
        item_kind(item_fn) == ItemKind::Function,
    ensures
        rewrites(item_fn, FUNCTION_BANNER@, result),
{
    rewrite(item_fn, FUNCTION_BANNER)
}

/// Rewrites a module marked unstable, as [`unstable_item_fn`] does a function.
pub fn unstable_item_mod(item_mod: syn::Item) -> (result: Result<proc_macro2::TokenStream, syn::Error>)
    requires
        item_kind(item_mod) == ItemKind::Module,
    ensures
        rewrites(item_mod, MODULE_BANNER@, result),
{
    rewrite(item_mod, MODULE_BANNER)
}

/// Rewrites a structure marked unstable, as [`unstable_item_fn`] does a
/// function.
pub fn unstable_item_struct(item_struct: syn::Item) -> (result: Result<
    proc_macro2::TokenStream,
    syn::Error,
>)
    requires
        item_kind(item_struct) == ItemKind::Structure,
    ensures
        rewrites(item_struct, STRUCT_BANNER@, result),
{
    rewrite(item_struct, STRUCT_BANNER)
}

/// Rewrites a parsed item marked unstable.
///
/// Functions, modules and structures that are not public as written are
/// expanded into their two guarded renditions; every other item is rejected.
pub fn unstable_item(item: syn::Item) -> (result: Result<proc_macro2::TokenStream, syn::Error>)
    ensures
        dispatches(item, result),
{
    match kind_of(&item) {
        ItemKind::Function => unstable_item_fn(item),
        ItemKind::Module => unstable_item_mod(item),
        ItemKind::Structure => unstable_item_struct(item),
        ItemKind::Other => Err(error_at(&item, NOT_SUPPORTED)),
    }
}

/// Rewrites the item that an `unstable` attribute is attached to.
///
/// `_attr` holds the attribute's arguments, which are not looked at. `item`
/// is parsed as one item: where it is none, the parser's error is returned;
/// where it is one, the item is rewritten as [`unstable_item`] does.
///
/// The stream has to be readable: the parser stops the program on a literal
/// of a form that it does not know. [`unstable_if_readable`] asks first.
pub fn unstable(_attr: proc_macro2::TokenStream, item: proc_macro2::TokenStream) -> (result: Result<
    proc_macro2::TokenStream,
    syn::Error,
>)
    requires
        readable(stream_tokens(item)),
    ensures
        outcome(item, result),
{
    match parse_item(item) {
        Ok(item) => unstable_item(item),
        Err(error) => Err(error),
    }
}

/// Rewrites the item that an `unstable` attribute is attached to, where its
/// stream is readable, and returns nothing where it is not.
pub fn unstable_if_readable(attr: proc_macro2::TokenStream, item: proc_macro2::TokenStream) -> (result:
    Option<Result<proc_macro2::TokenStream, syn::Error>>)
    ensures
        match result {
            Some(rewritten) => readable(stream_tokens(item)) && outcome(item, rewritten),
            None => !readable(stream_tokens(item)),
        },
{
    if is_readable(&item) {
        Some(unstable(attr, item))
    } else {
        None
    }
}

/// An expansion is exactly two renditions, each under its own guard, of
/// which every build compiles exactly one; the second rendition is the item
/// as it was given.
pub proof fn lemma_expansion_is_two_guarded_renditions(
    item: syn::Item,
    banner: Seq<char>,
    out: proc_macro2::TokenStream,
    build: Build,
)
    requires
        expands(item, banner, out),
    ensures
        stream_tokens(out) == guarded(Guard::Exposed, public_rendition_tokens(item, banner))
            + guarded(Guard::Hidden, item_tokens(item)),
        Guard::Exposed.holds(build) != Guard::Hidden.holds(build),
{
}

/// In a build that neither enables the feature `unstable` nor generates
/// documentation, what is compiled of an item's expansion is the item as it
/// was given, token for token; in every other build it is the public
/// rendition.
pub proof fn lemma_plain_build_compiles_item_as_given(
    item: syn::Item,
    banner: Seq<char>,
    out: proc_macro2::TokenStream,
    build: Build,
)
    requires
        expands(item, banner, out),
    ensures
        !build.unstable && !build.doc ==> compiled(
            build,
            public_rendition_tokens(item, banner),
            item_tokens(item),
        ) == item_tokens(item),
        build.unstable || build.doc ==> compiled(
            build,
            public_rendition_tokens(item, banner),
            item_tokens(item),
        ) == public_rendition_tokens(item, banner),
{
    lemma_compiled(build, public_rendition_tokens(item, banner), item_tokens(item));
}

/// Rewriting is a function of the item: two results for one item that is
/// not rejected hold the same tokens, and two rejections carry the same
/// message and point at the same location.
pub proof fn lemma_rewriting_is_determined(
    item: syn::Item,
    first: Result<proc_macro2::TokenStream, syn::Error>,
    second: Result<proc_macro2::TokenStream, syn::Error>,
)
    requires
        dispatches(item, first),
        dispatches(item, second),
    ensures
        match (first, second) {
            (Ok(a), Ok(b)) => stream_tokens(a) == stream_tokens(b),
            (Err(a), Err(b)) => error_message(a) == error_message(b) && error_span(a) == error_span(
                b,
            ),
            _ => false,
        },
{
}

/// The attribute's arguments do not matter, and rewriting is a function of
/// the stream: two results for one stream are both expansions with the same
/// tokens, or both rejections with the same message and location.
pub proof fn lemma_outcome_is_determined(
    tokens: proc_macro2::TokenStream,
    first: Result<proc_macro2::TokenStream, syn::Error>,
    second: Result<proc_macro2::TokenStream, syn::Error>,
)
    requires
        outcome(tokens, first),
        outcome(tokens, second),
    ensures
        match (first, second) {
            (Ok(a), Ok(b)) => stream_tokens(a) == stream_tokens(b),
            (Err(a), Err(b)) => error_message(a) == error_message(b) && error_span(a) == error_span(
                b,
            ),
            _ => false,
        },
{
    if let Ok(item) = parsed(tokens) {
        lemma_rewriting_is_determined(item, first, second);
    }
}

} // verus!
