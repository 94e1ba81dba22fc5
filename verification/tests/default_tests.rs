use proc_macro2::TokenStream;
use quick_macros::default_impl::{quick_default2, QuickDefaultStruct};
use quote::ToTokens;

fn tokens(text: &str) -> String {
    text.parse::<TokenStream>().unwrap().to_string()
}

fn compact(text: &str) -> String {
    text.chars().filter(|c| !c.is_whitespace()).collect()
}

fn expand(input: &str) -> String {
    quick_default2(TokenStream::new(), input.parse().unwrap()).to_string()
}

#[test]
fn cool_struct_defaults() {
    let out = expand("struct CoolStruct { #[default(64)] a: u32, b: u16 }");
    assert_eq!(
        out,
        tokens(
            "struct CoolStruct { a: u32, b: u16 } \
             impl Default for CoolStruct { fn default() -> Self { CoolStruct { a: 64, b: ::std::default::Default::default() } } }"
        )
    );
}

#[test]
fn something_defaults() {
    let out = expand(
        "pub struct Something { #[default(0)] pub field_1: u8, #[default(1000)] pub field_2: u16, pub field_3: u32, }",
    );
    assert_eq!(
        out,
        tokens(
            "pub struct Something { pub field_1: u8, pub field_2: u16, pub field_3: u32 } \
             impl Default for Something { fn default() -> Self { Something { field_1: 0, field_2: 1000, field_3: ::std::default::Default::default() } } }"
        )
    );
}

#[test]
fn string_literal_default() {
    let out = expand("pub struct Cat { #[default(\"mittens\")] pub name: &'static str, pub age: u8, }");
    assert!(out.ends_with(&tokens(
        "impl Default for Cat { fn default() -> Self { Cat { name: \"mittens\", age: ::std::default::Default::default() } } }"
    )));
}

#[test]
fn tuple_struct_defaults() {
    let out = expand("struct Pair(#[default(7)] u8, u16);");
    assert_eq!(
        out,
        tokens(
            "struct Pair(u8, u16); \
             impl Default for Pair { fn default() -> Self { Pair ( 7, ::std::default::Default::default() ) } }"
        )
    );
}

#[test]
fn other_list_attributes_stay() {
    let out = expand("struct S { #[allow(dead_code)] #[default(3)] a: u8 }");
    assert_eq!(
        out,
        tokens(
            "struct S { #[allow(dead_code)] a: u8 } \
             impl Default for S { fn default() -> Self { S { a: 3 } } }"
        )
    );
}

#[test]
fn last_default_wins_and_non_expression_is_ignored() {
    let out = expand("struct S { #[default(1)] #[default(1 + 1)] #[default(+)] a: u8 }");
    assert!(out.ends_with(&tokens("impl Default for S { fn default() -> Self { S { a: 1 + 1 } } }")));
}

#[test]
fn expression_default() {
    let out = expand("struct S { #[default(-1)] a: i8, #[default(String::from(\"x\"))] b: String }");
    assert!(out.ends_with(&tokens(
        "impl Default for S { fn default() -> Self { S { a: -1, b: String::from(\"x\") } } }"
    )));
}

#[test]
fn doc_attribute_stays() {
    let out = expand("struct S { #[doc = \"x\"] a: u8, #[default(5)] b: u8, }");
    assert_eq!(
        out,
        tokens(
            "struct S { #[doc = \"x\"] a: u8, b: u8 } \
             impl Default for S { fn default() -> Self { S { a: ::std::default::Default::default(), b: 5 } } }"
        )
    );
}

#[test]
fn generic_struct_default() {
    let out = expand("struct G<T: Clone> where T: Copy { #[default(3)] n: u8, t: T }");
    assert_eq!(
        out,
        tokens(
            "struct G<T: Clone> where T: Copy { n: u8, t: T } \
             impl<T: Clone> Default for G<T> where T: Copy, T: ::std::default::Default { fn default() -> Self { G { n: 3, t: ::std::default::Default::default() } } }"
        )
    );
}

#[test]
fn unit_struct_default() {
    let out = expand("struct Unit;");
    assert_eq!(out, tokens("struct Unit; impl Default for Unit { fn default() -> Self { Unit } }"));
}

#[test]
fn not_a_struct_is_a_compile_error() {
    let out = expand("enum E { A }");
    assert!(out.contains("compile_error"));
}

#[test]
fn emitted_definition_loses_default_attributes() {
    let s = QuickDefaultStruct::parse(
        "struct S { #[default(1)] #[allow(unused)] a: u8, b: u16, }".parse().unwrap(),
    )
    .ok()
    .unwrap();
    assert_eq!(s.ident, "S");
    let item = s.into_item();
    assert_eq!(item.to_token_stream().to_string(), tokens("struct S { #[allow(unused)] a: u8, b: u16 }"));

    let kept = QuickDefaultStruct::parse("struct K { #[doc = \"d\"] #[default(1)] a: u8, }".parse().unwrap())
        .ok()
        .unwrap();
    let item = kept.into_item();
    assert_eq!(item.to_token_stream().to_string(), tokens("struct K { #[doc = \"d\"] a: u8 }"));
}

#[test]
fn impl_text_of_parsed_struct() {
    let s = QuickDefaultStruct::parse("struct P(#[default('x')] char);".parse().unwrap()).ok().unwrap();
    assert_eq!(
        s.impl_text().render(),
        "impl Default for P { fn default ( ) -> Self { P ( 'x' ) } }"
    );
}

#[test]
fn type_parameters_get_a_default_bound() {
    let out = expand("struct W<T, const N: usize> { a: T, b: [u8; N] }");
    let start = out.find("impl").unwrap();
    assert_eq!(
        compact(&out[start..]),
        compact(&tokens(
            "impl<T, const N: usize> Default for W<T, N> where T: ::std::default::Default { fn default() -> Self { W { a: ::std::default::Default::default(), b: ::std::default::Default::default() } } }"
        ))
    );
}

#[test]
fn fields_keep_visibility_and_doc_comments() {
    let out = expand("pub struct D { /// first\n /// second\n #[default(64)] pub a: u32, pub(crate) b: u16 }");
    assert_eq!(
        out,
        tokens(
            "pub struct D { #[doc = \" first\"] #[doc = \" second\"] pub a: u32, pub(crate) b: u16 } \
             impl Default for D { fn default() -> Self { D { a: 64, b: ::std::default::Default::default() } } }"
        )
    );
}

#[test]
fn arguments_do_not_change_the_expansion() {
    let input = "struct S { #[default(1)] a: u8 }";
    let with_args = quick_default2("anything here".parse().unwrap(), input.parse().unwrap()).to_string();
    assert_eq!(with_args, expand(input));
}
