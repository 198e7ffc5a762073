//! What the rewriter reads in an attribute, and what it decides from it:
//! whether the attribute is a documentation line, and whether the public
//! rendition of the item keeps it.

use crate::text::{same_text, trim, trimmed};
use vstd::prelude::*;

verus! {

/// Where an attribute stands: before its item, or inside it.
#[derive(Clone, Copy, Debug, PartialEq, Eq)]
pub enum Style {
    /// `#[...]`
    Outer,
    /// `#![...]`
    Inner,
}

/// The structured form of an attribute's content.
#[derive(Clone, Debug, PartialEq, Eq)]
pub enum Meta {
    /// A path alone, as in `#[inline]`.
    Path,
    /// A path with a parenthesised list, as in `#[derive(Clone)]`.
    List,
    /// A path, an equals sign and a literal, as in `#[doc = "text"]`.
    ///
    /// `name` is the path where it is one plain identifier, and nothing
    /// where it is longer or starts with `::`. `value` is the text that the
    /// literal denotes where the literal is a string, and nothing else.
    NameValue { name: Option<String>, value: Option<String> },
    /// Content that is not read in a structured form: that of an inner
    /// attribute, which the rewriter leaves alone; content with a literal of
    /// a form that the parser does not know; and content that the parser
    /// rejects.
    Unread,
}

/// An attribute, as far as the rewriter looks at it.
#[derive(Clone, Debug, PartialEq, Eq)]
pub struct Outline {
    /// Where the attribute stands.
    pub style: Style,
    /// The structured form of its content.
    pub meta: Meta,
}

/// The mathematical value of a [`Meta`]: the same form, with each text as a
/// sequence of characters.
pub enum MetaView {
    /// A path alone.
    Path,
    /// A path with a parenthesised list.
    List,
    /// A path, an equals sign and a literal.
    NameValue { name: Option<Seq<char>>, value: Option<Seq<char>> },
    /// Content that is not read in a structured form.
    Unread,
}

/// The mathematical value of an [`Outline`].
pub struct OutlineView {
    /// Where the attribute stands.
    pub style: Style,
    /// The structured form of its content.
    pub meta: MetaView,
}

/// The name of the documentation attribute, and of the predicate that holds
/// while documentation is generated.
pub const DOC: &'static str = "doc";

impl View for Meta {
    type V = MetaView;

    open spec fn view(&self) -> MetaView {
        match *self {
            Meta::Path => MetaView::Path,
            Meta::List => MetaView::List,
            Meta::NameValue { name, value } => MetaView::NameValue {
                name: match name {
                    Some(n) => Some(n@),
                    None => None,
                },
                value: match value {
                    Some(v) => Some(v@),
                    None => None,
                },
            },
            Meta::Unread => MetaView::Unread,
        }
    }
}

impl View for Outline {
    type V = OutlineView;

    open spec fn view(&self) -> OutlineView {
        OutlineView { style: self.style, meta: self.meta@ }
    }
}

impl OutlineView {
    /// The documentation line that the attribute carries, if it is one: the
    /// trimmed string of an outer `doc = "..."`.
    pub open spec fn doc_line(self) -> Option<Seq<char>> {
        match (self.style, self.meta) {
            (Style::Outer, MetaView::NameValue { name: Some(n), value: Some(v) }) => if n == DOC@ {
                Some(trimmed(v))
            } else {
                None
            },
            _ => None,
        }
    }

    /// Whether the public rendition keeps the attribute: it keeps every
    /// attribute but the documentation lines, whose text moves into the
    /// composed documentation.
    pub open spec fn is_retained(self) -> bool {
        self.doc_line() is None
    }
}

/// The content reads `doc = "..."`.
pub open spec fn is_string_doc(meta: MetaView) -> bool {
    meta matches MetaView::NameValue { name: Some(n), value: Some(_) } && n == DOC@
}

/// The attributes that leave the public rendition are the outer ones of the
/// form `doc = "..."`, and no others.
pub proof fn lemma_only_doc_lines_leave(attr: OutlineView)
    ensures
        !attr.is_retained() <==> attr.style == Style::Outer && is_string_doc(attr.meta),
{
}

/// The documentation lines among `attrs`, in order.
pub open spec fn doc_lines(attrs: Seq<OutlineView>) -> Seq<Seq<char>> {
    attrs.filter_map(|a: OutlineView| a.doc_line())
}

/// The views of the attributes in `attrs`, in order.
pub open spec fn views(attrs: Seq<Outline>) -> Seq<OutlineView> {
    attrs.map_values(|a: Outline| a@)
}

impl Outline {
    /// Returns the documentation line that the attribute carries, if it is one.
    pub fn documentation(&self) -> (line: Option<String>)
        ensures
            match line {
                Some(text) => self@.doc_line() == Some(text@),
                None => self@.doc_line() is None,
            },
    {
        match self.style {
            Style::Inner => None,
            Style::Outer => match &self.meta {
                Meta::NameValue { name: Some(n), value: Some(v) } => {
                    if same_text(n.as_str(), DOC) {
                        Some(trim(v.as_str()))
                    } else {
                        None
                    }
                },
                _ => None,
            },
        }
    }

    /// Tells whether the public rendition keeps the attribute.
    pub fn is_retained(&self) -> (kept: bool)
        ensures
            kept == self@.is_retained(),
    {
        match self.style {
            Style::Inner => true,
            Style::Outer => match &self.meta {
                Meta::NameValue { name: Some(n), value: Some(_) } => !same_text(n.as_str(), DOC),
                _ => true,
            },
        }
    }
}

/// Collects the documentation lines among `attrs`, in order.
pub fn collect_doc_lines(attrs: &Vec<Outline>) -> (lines: Vec<String>)
    ensures
        lines.deep_view() == doc_lines(views(attrs@)),
{
    let mut lines: Vec<String> = Vec::new();
    let mut i: usize = 0;
    while i < attrs.len()
        invariant
            i <= attrs.len(),
            lines.deep_view() == doc_lines(views(attrs@).take(i as int)),
        decreases attrs.len() - i,
    {
        let ghost before = views(attrs@).take(i as int);
        let ghost after = views(attrs@).take(i + 1);
        let ghost old_lines = lines.deep_view();
        assert(after.drop_last() =~= before);
        assert(after.last() == attrs@[i as int]@);
        match attrs[i].documentation() {
            Some(line) => {
                lines.push(line);
                assert(lines.deep_view() =~= old_lines + seq![line@]);
            },
            None => {},
        }
        i = i + 1;
    }
    assert(views(attrs@).take(attrs.len() as int) =~= views(attrs@));
    lines
}

} // verus!
