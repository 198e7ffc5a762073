//! What flags the public rendition as unstable in generated documentation:
//! the markup, the composition of the documentation text, and the two
//! attributes that carry the flag.

use crate::attribute::DOC;
use crate::emit::{attribute, call, comma, pair, word};
use crate::emit::{push_attribute, push_call, push_comma, push_pair, push_word};
use crate::text::{flatten, flattened, join, joined};
use crate::token::{is_word, new_stream, stream_tokens, Token};
use vstd::prelude::*;
use vstd::string::StringExecFns;

verus! {

/// Script that relabels the item's entry in a module listing. It is folded
/// onto one line and attached to the first documentation line.
pub const MARKER_SCRIPT: &'static str = "<script>
if (document.body.classList.contains('mod')) {
    var s = document.currentScript;
    if (s.parentNode.parentNode.parentNode.id != 'main') {
        var n = s.parentNode.parentNode.children[0];
        n.classList.remove('deprecated');
        n.classList.add('unstable');
        n.innerText = 'Unstable';
    }
}
</script>
";

/// Banner closing the documentation of an unstable function.
pub const FUNCTION_BANNER: &'static str = "<div class=\"stability export-unstable\">
<div class=\"stab unstable\">
<span class=\"emoji\">\u{1F4A3}</span>
This function is <strong>unstable</strong>, and requires the feature <code>unstable</code> to be enabled.
</div>
</div>
<script>
(function(){
var l = document.body.classList
if (l.contains('fn') || l.contains('struct')){
  var s = document.currentScript;
  var u = s.previousElementSibling;
  var x = s.parentNode.previousElementSibling;
  x.parentNode.replaceChild(u, x);
}
})()
</script>";

/// Banner closing the documentation of an unstable module.
pub const MODULE_BANNER: &'static str = "<div class=\"stability export-unstable\">
<div class=\"stab unstable\">
<span class=\"emoji\">\u{1F4A3}</span>
This module is <strong>unstable</strong>, and requires the feature <code>unstable</code> to be enabled.
</div>
</div>
<script>
(function(){
var l = document.body.classList
if (l.contains('mod') || l.contains('struct')){
  var s = document.currentScript;
  var u = s.previousElementSibling;
  var x = s.parentNode.previousElementSibling;
  x.parentNode.replaceChild(u, x);
}
})()
</script>";

/// Banner closing the documentation of an unstable structure.
pub const STRUCT_BANNER: &'static str = "<div class=\"stability export-unstable\">
<div class=\"stab unstable\">
<span class=\"emoji\">\u{1F4A3}</span>
This struct is <strong>unstable</strong>, and requires the feature <code>unstable</code> to be enabled.
</div>
</div>
<script>
(function(){
var l = document.body.classList
if (l.contains('mod') || l.contains('struct')){
  var s = document.currentScript;
  var u = s.previousElementSibling;
  var x = s.parentNode.previousElementSibling;
  x.parentNode.replaceChild(u, x);
}
})()
</script>";

/// The attribute that applies another one under a predicate.
pub const CFG_ATTR: &'static str = "cfg_attr";

/// The attribute that lists an item as deprecated.
pub const DEPRECATED: &'static str = "deprecated";

/// The key of a deprecation's note.
pub const NOTE: &'static str = "note";

/// The note of the deprecation, which the marker script replaces.
pub const HELLO: &'static str = "hello";

/// The marker script on one line.
pub open spec fn marker() -> Seq<char> {
    flattened(MARKER_SCRIPT@)
}

/// The documentation lines with the marker attached: behind the first line
/// after a blank, or as a paragraph of its own where there is no line.
pub open spec fn marked(lines: Seq<Seq<char>>) -> Seq<Seq<char>> {
    if lines.len() >= 1 {
        lines.update(0, lines[0] + " "@ + marker())
    } else {
        seq!["<p>"@ + marker() + "</p>"@]
    }
}

/// The documentation of the public rendition: the marked lines, one per
/// line, then an empty line, then the banner.
pub open spec fn doc_text(lines: Seq<Seq<char>>, banner: Seq<char>) -> Seq<char> {
    joined(marked(lines), "\n"@) + "\n\n"@ + banner
}

/// Composes the documentation of the public rendition from the item's own
/// documentation lines and the banner of its kind.
pub fn compose_doc(lines: Vec<String>, banner: &str) -> (doc: String)
    ensures
        doc@ == doc_text(lines.deep_view(), banner@),
{
    let mut lines = lines;
    let ghost given = lines.deep_view();
    let script = flatten(MARKER_SCRIPT);
    if lines.len() >= 1 {
        let mut head = lines[0].clone();
        head.append(" ");
        head.append(script.as_str());
        lines.set(0, head);
        assert(lines.deep_view() =~= marked(given));
    } else {
        let mut paragraph = String::from_str("<p>");
        paragraph.append(script.as_str());
        paragraph.append("</p>");
        lines.push(paragraph);
        assert(lines.deep_view() =~= marked(given));
    }
    let mut doc = join(&lines, "\n");
    doc.append("\n\n");
    doc.append(banner);
    doc
}

/// `#[cfg_attr(doc, deprecated(note = "hello"))]`: generated documentation
/// lists the public rendition as deprecated, and the marker script turns
/// that label into "Unstable".
pub open spec fn deprecation_tokens() -> Seq<Token> {
    attribute(call(CFG_ATTR@, word(DOC@) + comma() + call(DEPRECATED@, pair(NOTE@, HELLO@))))
}

/// `#[doc = "text"]`.
pub open spec fn doc_tokens(text: Seq<char>) -> Seq<Token> {
    attribute(pair(DOC@, text))
}

/// The names that the two attributes are written with are words.
proof fn lemma_notice_words()
    ensures
        is_word(CFG_ATTR@),
        is_word(DEPRECATED@),
        is_word(NOTE@),
        is_word(DOC@),
{
    reveal_strlit("cfg_attr");
    reveal_strlit("deprecated");
    reveal_strlit("note");
    reveal_strlit("doc");
}

/// Appends `#[cfg_attr(doc, deprecated(note = "hello"))]`.
pub fn push_deprecation(out: &mut proc_macro2::TokenStream)
    ensures
        stream_tokens(*final(out)) == stream_tokens(*old(out)) + deprecation_tokens(),
{
    proof {
        lemma_notice_words();
    }
    let mut note = new_stream();
    push_pair(&mut note, NOTE, HELLO);
    assert(stream_tokens(note) =~= pair(NOTE@, HELLO@));
    let mut arguments = new_stream();
    push_word(&mut arguments, DOC);
    push_comma(&mut arguments);
    push_call(&mut arguments, DEPRECATED, note);
    assert(stream_tokens(arguments) =~= word(DOC@) + comma() + call(
        DEPRECATED@,
        pair(NOTE@, HELLO@),
    ));
    let mut body = new_stream();
    push_call(&mut body, CFG_ATTR, arguments);
    assert(stream_tokens(body) =~= call(CFG_ATTR@, stream_tokens(arguments)));
    push_attribute(out, body);
}

/// Appends `#[doc = "text"]`.
pub fn push_doc(out: &mut proc_macro2::TokenStream, text: &str)
    ensures
        stream_tokens(*final(out)) == stream_tokens(*old(out)) + doc_tokens(text@),
{
    proof {
        lemma_notice_words();
    }
    let mut body = new_stream();
    push_pair(&mut body, DOC, text);
    assert(stream_tokens(body) =~= pair(DOC@, text@));
    push_attribute(out, body);
}

} // verus!
