//! Parsed items: what the rewriter reads in one, by name, and the trusted
//! primitives that read, rebuild and print one.

use crate::attribute::{Meta, MetaView, OutlineView, Style};
use crate::literal::readable;
use crate::token::{stream_tokens, Token};
use vstd::prelude::*;

verus! {

/// `syn::Item`, carried as an opaque value.
#[verifier::external_type_specification]
#[verifier::external_body]
pub struct ExItem(syn::Item);

/// `syn::Attribute`, carried as an opaque value.
#[verifier::external_type_specification]
#[verifier::external_body]
pub struct ExAttribute(syn::Attribute);

/// `syn::Error`, carried as an opaque value.
#[verifier::external_type_specification]
#[verifier::external_body]
pub struct ExError(syn::Error);

/// `proc_macro2::Span`, carried as an opaque value.
#[verifier::external_type_specification]
#[verifier::external_body]
pub struct ExSpan(proc_macro2::Span);

/// The kinds of item that the rewriter tells apart.
#[derive(Clone, Copy, Debug, PartialEq, Eq)]
pub enum ItemKind {
    /// A free-standing function.
    Function,
    /// A module or a module declaration.
    Module,
    /// A structure definition.
    Structure,
    /// Anything else.
    Other,
}

/// The visibility that an item declares.
#[derive(Clone, Copy, Debug, PartialEq, Eq)]
pub enum Visibility {
    /// `pub`
    Public,
    /// `crate`
    Crate,
    /// `pub(...)`
    Restricted,
    /// Nothing written.
    Inherited,
}

/// What parsing the stream as one item yields: the item, or the error that
/// says why the stream is none.
pub uninterp spec fn parsed(tokens: proc_macro2::TokenStream) -> Result<syn::Item, syn::Error>;

/// The kind of an item.
pub uninterp spec fn item_kind(item: syn::Item) -> ItemKind;

/// The visibility that a function, module or structure declares.
pub uninterp spec fn item_visibility(item: syn::Item) -> Visibility;

/// The attributes of a function, module or structure, in order.
pub uninterp spec fn item_attributes(item: syn::Item) -> Seq<syn::Attribute>;

/// What an attribute is printed as.
pub uninterp spec fn attribute_tokens(attr: syn::Attribute) -> Seq<Token>;

/// What a function, module or structure is printed as behind its
/// visibility: its signature and body, its name and content, or its name and
/// fields. The inner attributes are printed inside the body.
pub uninterp spec fn item_declaration(item: syn::Item) -> Seq<Token>;

/// The tokens that an item is printed as.
pub uninterp spec fn item_tokens(item: syn::Item) -> Seq<Token>;

/// The source location that an item covers.
pub uninterp spec fn item_span(item: syn::Item) -> proc_macro2::Span;

/// Where an attribute stands.
pub uninterp spec fn attribute_style(attr: syn::Attribute) -> Style;

/// The structured form of an attribute's content.
pub uninterp spec fn attribute_meta(attr: syn::Attribute) -> MetaView;

/// The tokens of an attribute behind its path: what is read as its content.
pub uninterp spec fn attribute_content(attr: syn::Attribute) -> Seq<Token>;

/// The message of an error.
pub uninterp spec fn error_message(error: syn::Error) -> Seq<char>;

/// The source location that an error points at: the one it was made for,
/// which `syn::Error::span` returns on the thread that made the error.
pub uninterp spec fn error_span(error: syn::Error) -> proc_macro2::Span;

/// What the rewriter reads in an attribute: where it stands, and of an
/// outer attribute with readable content the structured form of that
/// content.
pub open spec fn outline(attr: syn::Attribute) -> OutlineView {
    OutlineView {
        style: attribute_style(attr),
        meta: if attribute_style(attr) == Style::Outer && readable(attribute_content(attr)) {
            attribute_meta(attr)
        } else {
            MetaView::Unread
        },
    }
}

/// What the rewriter reads in each of the attributes, in order.
pub open spec fn outlines(attrs: Seq<syn::Attribute>) -> Seq<OutlineView> {
    attrs.map_values(|a: syn::Attribute| outline(a))
}

/// The inner attributes among `attrs`, in order.
pub open spec fn inner_attributes(attrs: Seq<syn::Attribute>) -> Seq<syn::Attribute> {
    attrs.filter(|a: syn::Attribute| attribute_style(a) == Style::Inner)
}

/// What the outer attributes among `attrs` are printed as, in order.
pub open spec fn outer_tokens(attrs: Seq<syn::Attribute>) -> Seq<Token>
    decreases attrs.len(),
{
    if attrs.len() == 0 {
        Seq::empty()
    } else {
        outer_tokens(attrs.drop_last()) + if attribute_style(attrs.last()) == Style::Outer {
            attribute_tokens(attrs.last())
        } else {
            Seq::empty()
        }
    }
}

/// The attributes that the public rendition keeps, in order.
pub open spec fn retained(attrs: Seq<syn::Attribute>) -> Seq<syn::Attribute> {
    attrs.filter(|a: syn::Attribute| outline(a).is_retained())
}

/// `syn::parse2` reads the whole stream as one item. It stops the program
/// on a literal of a form that it does not know: a readable stream holds
/// none where the parser looks.
#[verifier::external_body]
pub(crate) fn parse_item(tokens: proc_macro2::TokenStream) -> (item: Result<syn::Item, syn::Error>)
    requires
        readable(stream_tokens(tokens)),
    ensures
        item == parsed(tokens),
{
    syn::parse2::<syn::Item>(tokens)
}

/// Tells the variants of `syn::Item` apart.
#[verifier::external_body]
pub(crate) fn kind_of(item: &syn::Item) -> (kind: ItemKind)
    ensures
        kind == item_kind(*item),
{
    match item {
        syn::Item::Fn(_) => ItemKind::Function,
        syn::Item::Mod(_) => ItemKind::Module,
        syn::Item::Struct(_) => ItemKind::Structure,
        _ => ItemKind::Other,
    }
}

/// Reads the field `vis` of `syn::ItemFn`, `syn::ItemMod` or
/// `syn::ItemStruct` and tells the variants of `syn::Visibility` apart.
#[verifier::external_body]
pub(crate) fn visibility_of(item: &syn::Item) -> (visibility: Visibility)
    requires
        item_kind(*item) != ItemKind::Other,
    ensures
        visibility == item_visibility(*item),
{
    let declared = match item {
        syn::Item::Fn(inner) => &inner.vis,
        syn::Item::Mod(inner) => &inner.vis,
        syn::Item::Struct(inner) => &inner.vis,
        _ => &syn::Visibility::Inherited,
    };
    match declared {
        syn::Visibility::Public(_) => Visibility::Public,
        syn::Visibility::Crate(_) => Visibility::Crate,
        syn::Visibility::Restricted(_) => Visibility::Restricted,
        syn::Visibility::Inherited => Visibility::Inherited,
    }
}

/// Copies the field `attrs` of `syn::ItemFn`, `syn::ItemMod` or
/// `syn::ItemStruct`.
#[verifier::external_body]
pub(crate) fn attributes_of(item: &syn::Item) -> (attrs: Vec<syn::Attribute>)
    requires
        item_kind(*item) != ItemKind::Other,
    ensures
        attrs@ == item_attributes(*item),
{
    match item {
        syn::Item::Fn(inner) => inner.attrs.clone(),
        syn::Item::Mod(inner) => inner.attrs.clone(),
        syn::Item::Struct(inner) => inner.attrs.clone(),
        _ => Vec::new(),
    }
}

/// Tells the variants of `syn::AttrStyle` apart.
#[verifier::external_body]
pub(crate) fn style_of(attr: &syn::Attribute) -> (style: Style)
    ensures
        style == attribute_style(*attr),
{
    match attr.style {
        syn::AttrStyle::Outer => Style::Outer,
        syn::AttrStyle::Inner(_) => Style::Inner,
    }
}

/// Copies the field `tokens` of `syn::Attribute`.
#[verifier::external_body]
pub(crate) fn content_of(attr: &syn::Attribute) -> (content: proc_macro2::TokenStream)
    ensures
        stream_tokens(content) == attribute_content(*attr),
{
    attr.tokens.clone()
}

/// `syn::Attribute::parse_meta` reads the attribute's content in its
/// structured form. Of a name-value pair, `syn::Path::get_ident` gives the
/// name where the path is one plain identifier, and `syn::LitStr::value` the
/// text where the literal is a string. It stops the program on a literal of
/// a form that it does not know: readable content holds none where it
/// looks.
#[verifier::external_body]
pub(crate) fn meta_of(attr: &syn::Attribute) -> (meta: Meta)
    requires
        readable(attribute_content(*attr)),
    ensures
        meta@ == attribute_meta(*attr),
{
    match attr.parse_meta() {
        Ok(syn::Meta::Path(_)) => Meta::Path,
        Ok(syn::Meta::List(_)) => Meta::List,
        Ok(syn::Meta::NameValue(pair)) => Meta::NameValue {
            name: pair.path.get_ident().map(ToString::to_string),
            value: match pair.lit {
                syn::Lit::Str(text) => Some(text.value()),
                _ => None,
            },
        },
        Err(_) => Meta::Unread,
    }
}

/// `quote::ToTokens::to_tokens` prints the attribute at the end of the
/// stream and leaves what the stream held in place.
#[verifier::external_body]
pub(crate) fn append_attribute(out: &mut proc_macro2::TokenStream, attr: &syn::Attribute)
    ensures
        stream_tokens(*final(out)) == stream_tokens(*old(out)) + attribute_tokens(*attr),
{
    quote::ToTokens::to_tokens(attr, out);
}

/// Prints the declaration of a function, module or structure at the end of
/// the stream: `quote::ToTokens::to_tokens` on a copy that has the inner
/// attributes alone for its own and no visibility written, which prints as
/// what stands behind the visibility.
#[verifier::external_body]
pub(crate) fn append_declaration(
    out: &mut proc_macro2::TokenStream,
    item: &syn::Item,
    inner: Vec<syn::Attribute>,
)
    requires
        item_kind(*item) != ItemKind::Other,
        inner@ == inner_attributes(item_attributes(*item)),
    ensures
        stream_tokens(*final(out)) == stream_tokens(*old(out)) + item_declaration(*item),
{
    let vis = syn::Visibility::Inherited;
    let bare = match item.clone() {
        syn::Item::Fn(copy) => syn::Item::Fn(syn::ItemFn { attrs: inner, vis, ..copy }),
        syn::Item::Mod(copy) => syn::Item::Mod(syn::ItemMod { attrs: inner, vis, ..copy }),
        syn::Item::Struct(copy) => syn::Item::Struct(syn::ItemStruct { attrs: inner, vis, ..copy }),
        other => other,
    };
    quote::ToTokens::to_tokens(&bare, out);
}

/// `quote::ToTokens::to_tokens` prints the item at the end of the stream and
/// leaves what the stream held in place.
#[verifier::external_body]
pub(crate) fn append_item(out: &mut proc_macro2::TokenStream, item: &syn::Item)
    ensures
        stream_tokens(*final(out)) == stream_tokens(*old(out)) + item_tokens(*item),
{
    quote::ToTokens::to_tokens(item, out);
}

/// `syn::Error::new` makes an error with the given message that points at
/// the given location: here the one that `syn::spanned::Spanned::span` gives
/// for the item.
#[verifier::external_body]
pub(crate) fn error_at(item: &syn::Item, message: &str) -> (error: syn::Error)
    ensures
        error_message(error) == message@,
        error_span(error) == item_span(*item),
{
    syn::Error::new(syn::spanned::Spanned::span(item), message)
}

} // verus!
