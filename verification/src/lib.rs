//! Rewrites an item marked unstable.
//!
//! [`unstable`] takes the tokens of a function, a module or a structure that
//! is not public and returns the item twice, under two build predicates that
//! exclude each other:
//!
//! - public, flagged as unstable in its documentation, for builds that
//!   enable the feature `unstable` or that generate documentation;
//! - exactly as it was written, for every other build.
//!
//! An item that is public as written is rejected, and so is an item of any
//! other kind.
//!
//! The parser stops the program on a literal of a form that it does not
//! know, so [`unstable`] asks for a stream without one where the parser
//! looks: everywhere but in the bracket of an attribute and in the body of
//! a macro invocation. [`rewrite::unstable_if_readable`] finds out first.
//!
//! The contracts speak of token streams and parsed items through the names
//! declared in [`token`] and [`syntax`], next to the few primitives of
//! `proc_macro2`, `quote` and `syn` that are trusted to behave as those names
//! say. Everything else is proved: which literals and streams the parser
//! reads ([`literal`]), which attributes the public rendition keeps
//! ([`attribute`]), what its documentation reads ([`notice`], [`text`]), the
//! guards and how they are spelled ([`guard`], [`emit`]), and the rewriter
//! itself ([`rewrite`]).

pub mod attribute;
pub mod emit;
pub mod guard;
pub mod literal;
pub mod notice;
pub mod rewrite;
pub mod syntax;
pub mod text;
pub mod token;

pub use rewrite::unstable;
