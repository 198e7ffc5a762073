use std::str::FromStr;

use export_macro::notice::{FUNCTION_BANNER, MARKER_SCRIPT, MODULE_BANNER, STRUCT_BANNER};
use export_macro::rewrite::{unstable_item, unstable_item_fn, unstable_item_mod, unstable_item_struct};
use export_macro::rewrite::unstable_if_readable;
use export_macro::unstable;
use proc_macro2::TokenStream;
use quote::ToTokens;

const EXPOSED_GUARD: &str = "#[cfg(any(feature = \"unstable\", doc))]";
const DEPRECATION: &str = "#[cfg_attr(doc, deprecated(note = \"hello\"))]";
const HIDDEN_GUARD: &str = "#[cfg(all(not(feature = \"unstable\"), not(doc)))]";

fn tokens(source: &str) -> TokenStream {
    TokenStream::from_str(source).unwrap()
}

fn text(source: &str) -> String {
    tokens(source).to_string()
}

fn expand(source: &str) -> Vec<syn::Item> {
    let out = unstable(TokenStream::new(), tokens(source)).unwrap();
    syn::parse2::<syn::File>(out).unwrap().items
}

fn attrs_of(item: &syn::Item) -> &Vec<syn::Attribute> {
    match item {
        syn::Item::Fn(inner) => &inner.attrs,
        syn::Item::Mod(inner) => &inner.attrs,
        syn::Item::Struct(inner) => &inner.attrs,
        _ => panic!("an item of another kind"),
    }
}

fn doc_of(attr: &syn::Attribute) -> String {
    match attr.parse_meta().unwrap() {
        syn::Meta::NameValue(pair) => {
            assert!(pair.path.is_ident("doc"));
            match pair.lit {
                syn::Lit::Str(value) => value.value(),
                _ => panic!("the documentation is no string"),
            }
        }
        _ => panic!("the attribute is no name-value pair"),
    }
}

fn printed(source: &str) -> String {
    syn::parse2::<syn::File>(tokens(source))
        .unwrap()
        .to_token_stream()
        .to_string()
}

fn marker() -> String {
    MARKER_SCRIPT.replace("\n", " ")
}

fn rejection(source: &str) -> String {
    match unstable(TokenStream::new(), tokens(source)) {
        Ok(out) => panic!("expanded to {}", out),
        Err(error) => error.to_string(),
    }
}

#[test]
fn private_function_expands_to_two_guarded_renditions() {
    let items = expand("/// Adds one.\n#[inline]\nfn add_one(x: u32) -> u32 { x + 1 }");
    assert_eq!(items.len(), 2);

    let exposed = attrs_of(&items[0]);
    assert_eq!(exposed.len(), 4);
    assert_eq!(exposed[0].to_token_stream().to_string(), text(EXPOSED_GUARD));
    assert_eq!(exposed[1].to_token_stream().to_string(), text(DEPRECATION));
    assert_eq!(
        doc_of(&exposed[2]),
        format!("Adds one. {}\n\n{}", marker(), FUNCTION_BANNER)
    );
    assert_eq!(exposed[3].to_token_stream().to_string(), text("#[inline]"));
    match &items[0] {
        syn::Item::Fn(inner) => {
            assert!(matches!(inner.vis, syn::Visibility::Public(_)));
            assert_eq!(
                inner.sig.to_token_stream().to_string(),
                text("fn add_one(x: u32) -> u32")
            );
            assert_eq!(inner.block.to_token_stream().to_string(), text("{ x + 1 }"));
        }
        _ => panic!("the public rendition is no function"),
    }

    assert_eq!(
        items[1].to_token_stream().to_string(),
        text(&format!(
            "{} #[doc = \" Adds one.\"] #[inline] fn add_one(x: u32) -> u32 {{ x + 1 }}",
            HIDDEN_GUARD
        ))
    );
}

#[test]
fn expansion_of_a_function_token_for_token() {
    let out = unstable(TokenStream::new(), tokens("fn f() {}")).unwrap();
    let doc = format!("<p>{}</p>\n\n{}", marker(), FUNCTION_BANNER);
    let mut expected = tokens(&format!("{} {}", EXPOSED_GUARD, DEPRECATION));
    expected.extend(tokens("#"));
    let mut body = tokens("doc =");
    body.extend(std::iter::once(proc_macro2::TokenTree::Literal(
        proc_macro2::Literal::string(&doc),
    )));
    expected.extend(std::iter::once(proc_macro2::TokenTree::Group(
        proc_macro2::Group::new(proc_macro2::Delimiter::Bracket, body),
    )));
    expected.extend(tokens(&format!("pub fn f() {{}} {} fn f() {{}}", HIDDEN_GUARD)));
    assert_eq!(out.to_string(), expected.to_string());
}

#[test]
fn hidden_rendition_is_the_item_as_written() {
    let sources = [
        "fn plain() {}",
        "pub(crate) fn restricted<T: Clone>(value: &T) -> T where T: Default { value.clone() }",
        "/// Documented.\n///\n/// Twice.\n#[must_use]\nunsafe fn documented() -> u8 { #![allow(unused)] 1 }",
        "mod inline { #![allow(dead_code)] pub fn inner() {} }",
        "#[path = \"other.rs\"] mod declared;",
        "#[derive(Clone)] struct Named<T> { pub field: T }",
        "struct Tuple(pub u8, u16);",
        "pub(super) struct Unit;",
    ];
    for source in sources {
        let items = expand(source);
        assert_eq!(items.len(), 2, "{}", source);
        let given = syn::parse2::<syn::Item>(tokens(source)).unwrap();
        assert_eq!(
            items[1].to_token_stream().to_string(),
            format!("{} {}", text(HIDDEN_GUARD), given.to_token_stream()),
            "{}",
            source
        );
    }
}

#[test]
fn public_rendition_is_public_and_otherwise_as_written() {
    let items =
        expand("pub(crate) fn keep<T: Clone>(value: &T) -> T { #![allow(unused)] value.clone() }");
    let exposed = attrs_of(&items[0]);
    assert_eq!(exposed.len(), 4);
    assert_eq!(
        doc_of(&exposed[2]),
        format!("<p>{}</p>\n\n{}", marker(), FUNCTION_BANNER)
    );
    let mut bare = items[0].clone();
    match &mut bare {
        syn::Item::Fn(inner) => inner.attrs.drain(0..3).for_each(drop),
        _ => panic!("the public rendition is no function"),
    }
    assert_eq!(
        bare.to_token_stream().to_string(),
        printed("pub fn keep<T: Clone>(value: &T) -> T { #![allow(unused)] value.clone() }")
    );
}

#[test]
fn module_gets_the_module_banner() {
    let items = expand("/// A module.\nmod m { pub fn f() {} }");
    assert_eq!(items.len(), 2);
    let exposed = attrs_of(&items[0]);
    assert_eq!(exposed.len(), 3);
    assert_eq!(
        doc_of(&exposed[2]),
        format!("A module. {}\n\n{}", marker(), MODULE_BANNER)
    );
    match &items[0] {
        syn::Item::Mod(inner) => {
            assert!(matches!(inner.vis, syn::Visibility::Public(_)));
            assert_eq!(inner.ident.to_string(), "m");
            assert_eq!(inner.content.as_ref().unwrap().1.len(), 1);
        }
        _ => panic!("the public rendition is no module"),
    }
    match &items[1] {
        syn::Item::Mod(inner) => assert!(matches!(inner.vis, syn::Visibility::Inherited)),
        _ => panic!("the hidden rendition is no module"),
    }
}

#[test]
fn module_declaration_is_supported() {
    let items = expand("mod elsewhere;");
    assert_eq!(items.len(), 2);
    match &items[0] {
        syn::Item::Mod(inner) => {
            assert!(matches!(inner.vis, syn::Visibility::Public(_)));
            assert!(inner.content.is_none());
        }
        _ => panic!("the public rendition is no module"),
    }
}

#[test]
fn structure_gets_the_struct_banner() {
    let items = expand("/// A point.\n#[derive(Clone)]\nstruct Point { x: i32, y: i32 }");
    assert_eq!(items.len(), 2);
    let exposed = attrs_of(&items[0]);
    assert_eq!(exposed.len(), 4);
    assert_eq!(
        doc_of(&exposed[2]),
        format!("A point. {}\n\n{}", marker(), STRUCT_BANNER)
    );
    assert_eq!(exposed[3].to_token_stream().to_string(), text("#[derive(Clone)]"));
    match &items[0] {
        syn::Item::Struct(inner) => {
            assert!(matches!(inner.vis, syn::Visibility::Public(_)));
            assert_eq!(inner.fields.len(), 2);
        }
        _ => panic!("the public rendition is no structure"),
    }
}

#[test]
fn item_without_documentation_gets_a_paragraph() {
    let items = expand("fn bare() {}");
    let exposed = attrs_of(&items[0]);
    assert_eq!(exposed.len(), 3);
    assert_eq!(
        doc_of(&exposed[2]),
        format!("<p>{}</p>\n\n{}", marker(), FUNCTION_BANNER)
    );
}

#[test]
fn documentation_lines_are_trimmed_and_joined() {
    let items = expand("///   First line.  \n///\n/// Third line.\nfn f() {}");
    let exposed = attrs_of(&items[0]);
    assert_eq!(exposed.len(), 3);
    assert_eq!(
        doc_of(&exposed[2]),
        format!("First line. {}\n\nThird line.\n\n{}", marker(), FUNCTION_BANNER)
    );
}

#[test]
fn documentation_lines_leave_and_other_attributes_stay_in_order() {
    let items = expand(
        "#[inline] /// One.\n #[doc(hidden)] #[doc = \"Two.\"] #[doc = 3] #[must_use = \"why\"] #[cold] fn f() { #![doc = \"inner\"] }",
    );
    let inner_attribute = match syn::parse2::<syn::Item>(tokens("fn f() { #![doc = \"inner\"] }")) {
        Ok(syn::Item::Fn(inner)) => inner.attrs[0].to_token_stream().to_string(),
        _ => panic!("no function"),
    };
    let exposed = attrs_of(&items[0]);
    let kept: Vec<String> = exposed[3..]
        .iter()
        .map(|attr| attr.to_token_stream().to_string())
        .collect();
    assert_eq!(
        kept,
        vec![
            text("#[inline]"),
            text("#[doc(hidden)]"),
            text("#[doc = 3]"),
            text("#[must_use = \"why\"]"),
            text("#[cold]"),
            inner_attribute,
        ]
    );
    assert_eq!(
        doc_of(&exposed[2]),
        format!("One. {}\nTwo.\n\n{}", marker(), FUNCTION_BANNER)
    );
    assert_eq!(attrs_of(&items[1]).len(), 1 + 8);
}

#[test]
fn name_value_attribute_with_a_path_stays_in_both_renditions() {
    let items = expand("#[a::b = \"c\"] #[inline] fn f() {}");
    let exposed = attrs_of(&items[0]);
    assert_eq!(exposed.len(), 5);
    assert_eq!(exposed[3].to_token_stream().to_string(), text("#[a::b = \"c\"]"));
    assert_eq!(exposed[4].to_token_stream().to_string(), text("#[inline]"));
    let hidden = attrs_of(&items[1]);
    assert_eq!(hidden.len(), 3);
    assert_eq!(hidden[1].to_token_stream().to_string(), text("#[a::b = \"c\"]"));
}

#[test]
fn public_rendition_keeps_every_attribute_but_its_documentation_lines() {
    let source = "/// One.\n#[inline] #[::doc = \"x\"] #[doc(alias = \"g\")] /// Two.\n#[doc = 1] #[must_use] fn f() {}";
    let items = expand(source);
    let given = syn::parse2::<syn::Item>(tokens(source)).unwrap();
    let expected: Vec<String> = attrs_of(&given)
        .iter()
        .map(|attr| attr.to_token_stream().to_string())
        .filter(|printed| !printed.contains("One.") && !printed.contains("Two."))
        .collect();
    assert_eq!(expected.len(), 5);
    let kept: Vec<String> = attrs_of(&items[0])[3..]
        .iter()
        .map(|attr| attr.to_token_stream().to_string())
        .collect();
    assert_eq!(kept, expected);
}

#[test]
fn attribute_of_no_structured_form_stays() {
    let items = expand("#[custom(a + b)] #[other = not_a_literal] fn f() {}");
    let exposed = attrs_of(&items[0]);
    assert_eq!(exposed.len(), 5);
    assert_eq!(exposed[3].to_token_stream().to_string(), text("#[custom(a + b)]"));
    assert_eq!(
        exposed[4].to_token_stream().to_string(),
        text("#[other = not_a_literal]")
    );
}

#[test]
fn restricted_and_crate_visibility_are_not_public() {
    for source in [
        "pub(crate) fn f() {}",
        "pub(super) mod m {}",
        "pub(in crate::a) struct S;",
        "pub(self) fn g() {}",
        "crate fn h() {}",
    ] {
        let items = expand(source);
        assert_eq!(items.len(), 2, "{}", source);
    }
}

#[test]
fn public_function_is_rejected() {
    assert_eq!(
        rejection("pub fn f() {}"),
        "already public, cannot be marked unstable"
    );
}

#[test]
fn public_module_is_rejected() {
    assert_eq!(
        rejection("/// Documented.\npub mod m {}"),
        "already public, cannot be marked unstable"
    );
}

#[test]
fn public_structure_is_rejected() {
    assert_eq!(
        rejection("#[derive(Debug)] pub struct S { field: u8 }"),
        "already public, cannot be marked unstable"
    );
}

#[test]
fn other_kinds_of_item_are_rejected() {
    for source in [
        "const MAX: u16 = 65535;",
        "enum E { A, B }",
        "pub enum P { A }",
        "extern crate alloc;",
        "extern \"C\" { fn f(); }",
        "impl S { fn f() {} }",
        "macro_rules! m { () => {} }",
        "static S: u8 = 0;",
        "trait T { fn f(&self); }",
        "pub trait Q {}",
        "type A = u8;",
        "union U { a: u8, b: u16 }",
        "use std::fmt;",
    ] {
        assert_eq!(rejection(source), "not supported in this position", "{}", source);
    }
}

#[test]
fn input_that_is_no_item_gives_the_parse_error() {
    let source = "fn";
    let expected = syn::parse2::<syn::Item>(tokens(source)).unwrap_err().to_string();
    assert_eq!(rejection(source), expected);
    let source = "fn f() {} fn g() {}";
    let expected = syn::parse2::<syn::Item>(tokens(source)).unwrap_err().to_string();
    assert_eq!(rejection(source), expected);
    assert_eq!(rejection(source), "unexpected token");
    let source = "";
    let expected = syn::parse2::<syn::Item>(tokens(source)).unwrap_err().to_string();
    assert_eq!(rejection(source), expected);
}

#[test]
fn arguments_of_the_attribute_are_ignored() {
    let plain = unstable(TokenStream::new(), tokens("fn f() {}")).unwrap();
    let with_arguments = unstable(tokens("since = \"1.2\", anything"), tokens("fn f() {}")).unwrap();
    assert_eq!(plain.to_string(), with_arguments.to_string());
}

#[test]
fn parsed_item_is_rewritten_as_its_tokens_are() {
    for source in [
        "/// Documented.\nfn f() {}",
        "mod m {}",
        "pub(crate) struct S;",
    ] {
        let item = syn::parse2::<syn::Item>(tokens(source)).unwrap();
        let from_item = unstable_item(item).unwrap();
        let from_tokens = unstable(TokenStream::new(), tokens(source)).unwrap();
        assert_eq!(from_item.to_string(), from_tokens.to_string(), "{}", source);
    }
}

#[test]
fn parsed_item_is_rejected_as_its_tokens_are() {
    let public = syn::parse2::<syn::Item>(tokens("pub struct S;")).unwrap();
    assert_eq!(
        unstable_item(public).unwrap_err().to_string(),
        "already public, cannot be marked unstable"
    );
    let other = syn::parse2::<syn::Item>(tokens("pub enum E {}")).unwrap();
    assert_eq!(
        unstable_item(other).unwrap_err().to_string(),
        "not supported in this position"
    );
}

#[test]
fn public_item_of_another_kind_is_not_supported() {
    for source in ["pub enum E {}", "pub const C: u8 = 0;", "pub use a::b;", "pub type T = u8;"] {
        assert_eq!(rejection(source), "not supported in this position", "{}", source);
    }
}

#[test]
fn stream_with_an_unknown_literal_is_not_rewritten() {
    for source in [
        "fn f() { c\"x\"; }",
        "fn f() { return !(c\"x\"); }",
        "fn f() -> usize { g(&[1, 2], (c\"x\", 3)) }",
        "struct S { field: [u8; { cr#\"x\"#.len() }] }",
    ] {
        assert!(
            unstable_if_readable(TokenStream::new(), tokens(source)).is_none(),
            "{}",
            source
        );
    }
}

#[test]
fn readable_stream_is_rewritten_as_unstable_does() {
    for source in [
        "fn f() -> f64 { let _ = (1, 0xFFu8, 0b1010_1010, 0o17, 1usize, b'a', b\"bytes\", br#\"raw\"#, 'c', \"s\", r#\"raw\"#, true); 1.5e-3 + 2E+10f64 + 1e5 + 3. + 0.5f32 + 1_000.000_1 }",
        "pub fn f() {}",
        "enum E { A = 1 }",
        "fn",
    ] {
        let asked = unstable_if_readable(TokenStream::new(), tokens(source)).unwrap();
        let direct = unstable(TokenStream::new(), tokens(source));
        match (asked, direct) {
            (Ok(a), Ok(b)) => assert_eq!(a.to_string(), b.to_string(), "{}", source),
            (Err(a), Err(b)) => assert_eq!(a.to_string(), b.to_string(), "{}", source),
            _ => panic!("the two disagree on {}", source),
        }
    }
}

#[test]
fn unknown_literal_in_an_inner_attribute_does_not_matter() {
    let source = "mod m { #![k = c\"v\"] }";
    let out = unstable_if_readable(TokenStream::new(), tokens(source))
        .unwrap()
        .unwrap();
    let items = syn::parse2::<syn::File>(out).unwrap().items;
    assert_eq!(items.len(), 2);
    assert_eq!(attrs_of(&items[0]).len(), 4);
    assert_eq!(attrs_of(&items[1]).len(), 2);
    let given = syn::parse2::<syn::Item>(tokens(source)).unwrap();
    assert_eq!(
        attrs_of(&items[0])[3].to_token_stream().to_string(),
        attrs_of(&given)[0].to_token_stream().to_string()
    );
}

#[test]
fn outer_attribute_with_an_unknown_literal_stays() {
    for source in [
        "#[k = c\"v\"] /// Documented.\n fn f() {}",
        "#[k(c\"v\")] /// Documented.\n fn f() {}",
        "#[doc = c\"v\"] /// Documented.\n fn f() {}",
    ] {
        let out = unstable_if_readable(TokenStream::new(), tokens(source))
            .unwrap()
            .unwrap();
        let items = syn::parse2::<syn::File>(out).unwrap().items;
        assert_eq!(items.len(), 2, "{}", source);
        let given = syn::parse2::<syn::Item>(tokens(source)).unwrap();
        let exposed = attrs_of(&items[0]);
        assert_eq!(exposed.len(), 4, "{}", source);
        assert_eq!(
            exposed[3].to_token_stream().to_string(),
            attrs_of(&given)[0].to_token_stream().to_string()
        );
        assert_eq!(
            doc_of(&exposed[2]),
            format!("Documented. {}\n\n{}", marker(), FUNCTION_BANNER)
        );
    }
}

#[test]
fn rejection_points_at_the_item() {
    let item = syn::parse2::<syn::Item>(tokens("pub fn f() {}")).unwrap();
    let expected = format!("{:?}", syn::spanned::Spanned::span(&item));
    let error = unstable_item(item).unwrap_err();
    assert_eq!(format!("{:?}", error.span()), expected);
}

#[test]
fn each_kind_has_its_own_entry() {
    let function = syn::parse2::<syn::Item>(tokens("fn f() {}")).unwrap();
    let module = syn::parse2::<syn::Item>(tokens("mod m;")).unwrap();
    let structure = syn::parse2::<syn::Item>(tokens("struct S;")).unwrap();
    assert_eq!(
        unstable_item_fn(function.clone()).unwrap().to_string(),
        unstable_item(function).unwrap().to_string()
    );
    assert_eq!(
        unstable_item_mod(module.clone()).unwrap().to_string(),
        unstable_item(module).unwrap().to_string()
    );
    assert_eq!(
        unstable_item_struct(structure.clone()).unwrap().to_string(),
        unstable_item(structure).unwrap().to_string()
    );
    let public = syn::parse2::<syn::Item>(tokens("pub mod m;")).unwrap();
    assert_eq!(
        unstable_item_mod(public).unwrap_err().to_string(),
        "already public, cannot be marked unstable"
    );
}

#[test]
fn unknown_literal_in_a_macro_call_does_not_matter() {
    for source in [
        "fn f() { m!(c\"x\"); }",
        "fn f() -> usize { a::b![1, c\"x\"].len() + n! { c\"x\" } }",
        "mod m { macro_rules! n { () => { c\"x\" } } }",
        "struct S { field: m!(c\"x\") }",
    ] {
        let out = unstable_if_readable(TokenStream::new(), tokens(source))
            .unwrap()
            .unwrap();
        let items = syn::parse2::<syn::File>(out).unwrap().items;
        assert_eq!(items.len(), 2, "{}", source);
        let given = syn::parse2::<syn::Item>(tokens(source)).unwrap();
        assert_eq!(
            items[1].to_token_stream().to_string(),
            format!("{} {}", text(HIDDEN_GUARD), given.to_token_stream()),
            "{}",
            source
        );
        assert!(items[0].to_token_stream().to_string().contains("c\"x\""));
    }
}

#[test]
fn public_rendition_prints_as_a_public_copy_without_documentation_lines() {
    for source in [
        "/// Doc.\n#[inline] pub(crate) unsafe fn f<T>(x: T) -> T where T: Copy { #![allow(unused)] #![k = 1] x }",
        "#[cfg(test)] /// Doc.\n mod m { #![allow(dead_code)] //! Inner doc.\n pub fn g() {} }",
        "/// Doc.\n#[path = \"p.rs\"] pub(super) mod m;",
        "#[derive(Clone)] /// Doc.\n#[repr(C)] struct S<T: Copy = u8>(pub T, #[k] u8) where T: Default;",
        "struct U;",
        "crate struct N { #[serde(skip)] a: u8 }",
    ] {
        let out = unstable(TokenStream::new(), tokens(source)).unwrap();
        let items = syn::parse2::<syn::File>(out).unwrap().items;
        let mut copy = syn::parse2::<syn::Item>(tokens(source)).unwrap();
        let public = syn::Visibility::Public(syn::VisPublic {
            pub_token: Default::default(),
        });
        let keep = |attr: &syn::Attribute| {
            !(matches!(attr.style, syn::AttrStyle::Outer) && attr.path.is_ident("doc"))
        };
        match &mut copy {
            syn::Item::Fn(inner) => {
                inner.vis = public;
                inner.attrs.retain(keep);
            }
            syn::Item::Mod(inner) => {
                inner.vis = public;
                inner.attrs.retain(keep);
            }
            syn::Item::Struct(inner) => {
                inner.vis = public;
                inner.attrs.retain(keep);
            }
            _ => panic!("an item of another kind"),
        }
        let mut bare = items[0].clone();
        match &mut bare {
            syn::Item::Fn(inner) => inner.attrs.drain(0..3).for_each(drop),
            syn::Item::Mod(inner) => inner.attrs.drain(0..3).for_each(drop),
            syn::Item::Struct(inner) => inner.attrs.drain(0..3).for_each(drop),
            _ => panic!("an item of another kind"),
        }
        assert_eq!(
            bare.to_token_stream().to_string(),
            copy.to_token_stream().to_string(),
            "{}",
            source
        );
    }
}
