//! The build predicates that decide which rendition of an item is compiled,
//! and the attributes that spell them.

use crate::attribute::DOC;
use crate::emit::{attribute, call, comma, pair, word};
use crate::emit::{push_attribute, push_call, push_comma, push_pair, push_word};
use crate::token::{is_word, new_stream, stream_tokens, Token};
use vstd::prelude::*;

verus! {

/// What a build has switched on, as far as the guards look at it.
#[derive(Clone, Copy, Debug, PartialEq, Eq)]
pub struct Build {
    /// The feature `unstable` is enabled.
    pub unstable: bool,
    /// Documentation is being generated.
    pub doc: bool,
}

/// The predicate under which a rendition is compiled.
#[derive(Clone, Copy, Debug, PartialEq, Eq)]
pub enum Guard {
    /// `any(feature = "unstable", doc)`: guards the public rendition.
    Exposed,
    /// `all(not(feature = "unstable"), not(doc))`: guards the item as written.
    Hidden,
}

/// The attribute that compiles its item under a predicate.
pub const CFG: &'static str = "cfg";

/// The predicate that holds where one of its arguments does.
pub const ANY: &'static str = "any";

/// The predicate that holds where all of its arguments do.
pub const ALL: &'static str = "all";

/// The predicate that holds where its argument does not.
pub const NOT: &'static str = "not";

/// The key of a predicate on an enabled feature.
pub const FEATURE: &'static str = "feature";

/// The feature that opts in to unstable items.
pub const UNSTABLE: &'static str = "unstable";

/// `feature = "unstable"`.
pub open spec fn feature_unstable() -> Seq<Token> {
    pair(FEATURE@, UNSTABLE@)
}

impl Guard {
    /// Whether the guard lets its rendition into the given build.
    pub open spec fn holds(self, build: Build) -> bool {
        match self {
            Guard::Exposed => build.unstable || build.doc,
            Guard::Hidden => !build.unstable && !build.doc,
        }
    }

    /// The predicate as it is written inside `cfg(...)`.
    pub open spec fn predicate(self) -> Seq<Token> {
        match self {
            Guard::Exposed => call(ANY@, feature_unstable() + comma() + word(DOC@)),
            Guard::Hidden => call(
                ALL@,
                call(NOT@, feature_unstable()) + comma() + call(NOT@, word(DOC@)),
            ),
        }
    }

    /// The attribute `#[cfg(...)]` that carries the predicate.
    pub open spec fn tokens(self) -> Seq<Token> {
        attribute(call(CFG@, self.predicate()))
    }

    /// Tells whether the guard lets its rendition into the given build.
    pub fn admits(self, build: Build) -> (yes: bool)
        ensures
            yes == self.holds(build),
    {
        match self {
            Guard::Exposed => build.unstable || build.doc,
            Guard::Hidden => !build.unstable && !build.doc,
        }
    }
}

/// What a build compiles of two renditions, the first under the exposed
/// guard and the second under the hidden one.
pub open spec fn compiled(build: Build, exposed: Seq<Token>, hidden: Seq<Token>) -> Seq<Token> {
    (if Guard::Exposed.holds(build) {
        exposed
    } else {
        Seq::empty()
    }) + (if Guard::Hidden.holds(build) {
        hidden
    } else {
        Seq::empty()
    })
}

/// The two guards exclude each other and leave no build out: every build
/// compiles exactly one of the two renditions.
pub proof fn lemma_guards_exclusive(build: Build)
    ensures
        Guard::Exposed.holds(build) != Guard::Hidden.holds(build),
{
}

/// A build that neither enables the feature nor generates documentation
/// compiles the hidden rendition and nothing of the exposed one; every other
/// build compiles the exposed rendition and nothing of the hidden one.
pub proof fn lemma_compiled(build: Build, exposed: Seq<Token>, hidden: Seq<Token>)
    ensures
        !build.unstable && !build.doc ==> compiled(build, exposed, hidden) == hidden,
        build.unstable || build.doc ==> compiled(build, exposed, hidden) == exposed,
{
    assert(Seq::<Token>::empty() + hidden =~= hidden);
    assert(exposed + Seq::<Token>::empty() =~= exposed);
}

/// The names that the guards are written with are words.
proof fn lemma_guard_words()
    ensures
        is_word(CFG@),
        is_word(ANY@),
        is_word(ALL@),
        is_word(NOT@),
        is_word(FEATURE@),
        is_word(DOC@),
{
    reveal_strlit("cfg");
    reveal_strlit("any");
    reveal_strlit("all");
    reveal_strlit("not");
    reveal_strlit("feature");
    reveal_strlit("doc");
}

/// Appends the attribute `#[cfg(...)]` of the guard.
pub fn push_guard(out: &mut proc_macro2::TokenStream, guard: Guard)
    ensures
        stream_tokens(*final(out)) == stream_tokens(*old(out)) + guard.tokens(),
{
    proof {
        lemma_guard_words();
    }
    let mut predicate = new_stream();
    match guard {
        Guard::Exposed => {
            let mut arguments = new_stream();
            push_pair(&mut arguments, FEATURE, UNSTABLE);
            push_comma(&mut arguments);
            push_word(&mut arguments, DOC);
            assert(stream_tokens(arguments) =~= feature_unstable() + comma() + word(DOC@));
            push_call(&mut predicate, ANY, arguments);
        },
        Guard::Hidden => {
            let mut feature = new_stream();
            push_pair(&mut feature, FEATURE, UNSTABLE);
            assert(stream_tokens(feature) =~= feature_unstable());
            let mut doc = new_stream();
            push_word(&mut doc, DOC);
            assert(stream_tokens(doc) =~= word(DOC@));
            let mut arguments = new_stream();
            push_call(&mut arguments, NOT, feature);
            push_comma(&mut arguments);
            push_call(&mut arguments, NOT, doc);
            assert(stream_tokens(arguments) =~= call(NOT@, feature_unstable()) + comma() + call(
                NOT@,
                word(DOC@),
            ));
            push_call(&mut predicate, ALL, arguments);
        },
    }
    assert(stream_tokens(predicate) =~= guard.predicate());
    let mut body = new_stream();
    push_call(&mut body, CFG, predicate);
    assert(stream_tokens(body) =~= call(CFG@, guard.predicate()));
    push_attribute(out, body);
}

} // verus!
