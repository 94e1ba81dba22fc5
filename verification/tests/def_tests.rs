use proc_macro2::TokenStream;
use quick_macros::def_macro::{deref_target_choice, quick_def_parse, QuickDefReceiver};
use quick_macros::model::FieldInfo;
use quick_macros::text::decimal_text;

/// Token text without whitespace: generated code and the expected text may
/// differ in the spacing of punctuation only.
fn compact(text: &str) -> String {
    text.chars().filter(|c| !c.is_whitespace()).collect()
}

fn tokens(text: &str) -> String {
    compact(&text.parse::<TokenStream>().unwrap().to_string())
}

fn receiver(item: &str) -> QuickDefReceiver {
    QuickDefReceiver { meta: syn::parse_str("marker").unwrap(), item: syn::parse_str(item).unwrap() }
}

fn field(name: Option<&str>, ty: &str) -> FieldInfo {
    FieldInfo { ident: name.map(|n| n.to_string()), ty: ty.to_string(), attrs: vec![] }
}

#[test]
fn first_named_field_is_the_target() {
    let out = receiver("struct WrappedIterator { inner: Vec<u32> }").to_tokens(&vec![true]).to_string();
    let out = compact(&out);
    assert_eq!(
        out,
        tokens(
            "struct WrappedIterator { inner: Vec<u32> } \
             impl ::core::ops::Deref for WrappedIterator { type Target = Vec<u32>; fn deref(&self) -> &Self::Target { &self.inner } }"
        )
    );
}

#[test]
fn tuple_field_is_reached_by_an_i32_index() {
    let out = receiver("struct T(u8, u16);").to_tokens(&vec![false, true]).to_string();
    let out = compact(&out);
    assert_eq!(
        out,
        tokens(
            "struct T(u8, u16); \
             impl ::core::ops::Deref for T { type Target = u16; fn deref(&self) -> &Self::Target { &self.1i32 } }"
        )
    );
}

#[test]
fn no_accepted_field_gives_no_impl() {
    let out = receiver("struct T { a: u8 }").to_tokens(&vec![false]).to_string();
    let out = compact(&out);
    assert_eq!(out, tokens("struct T { a: u8 }"));
}

#[test]
fn choice_on_fields() {
    let fields = vec![field(None, "u8"), field(None, "u16"), field(None, "u32")];
    assert_eq!(deref_target_choice(&fields, &vec![false, false, true]), Some(("2i32".to_string(), "u32".to_string())));
    assert_eq!(deref_target_choice(&fields, &vec![true, true, true]), Some(("0i32".to_string(), "u8".to_string())));
    assert_eq!(deref_target_choice(&fields, &vec![false]), None);
    let named = vec![field(Some("a"), "u8"), field(Some("b"), "u16")];
    assert_eq!(deref_target_choice(&named, &vec![false, true]), Some(("b".to_string(), "u16".to_string())));
}

#[test]
fn decimal_texts() {
    assert_eq!(decimal_text(0), "0");
    assert_eq!(decimal_text(7), "7");
    assert_eq!(decimal_text(10), "10");
    assert_eq!(decimal_text(1234567), "1234567");
    assert_eq!(decimal_text(usize::MAX), usize::MAX.to_string());
}

#[test]
fn generated_text_of_parsed_struct() {
    let r = receiver("struct T(u8, u16);");
    let text = r.generated_text(&vec![true, true]).render();
    assert_eq!(
        text,
        "impl ::core::ops::Deref for T { type Target = u8 ; fn deref ( & self ) -> & Self::Target { & self . 0i32 } }"
    );
    assert_eq!(r.generated_text(&vec![]).render(), "");
}

#[test]
fn no_accepted_field_adds_nothing() {
    let out = compact(&receiver("struct U;").to_tokens(&vec![]).to_string());
    assert_eq!(out, tokens("struct U;"));
    let out = compact(&receiver("struct W { a: u8 }").to_tokens(&vec![false]).to_string());
    assert_eq!(out, tokens("struct W { a: u8 }"));
}

#[test]
fn quick_def_reads_its_input() {
    let r = quick_def_parse("flag, key = 1".parse().unwrap(), "marker struct S { a: u8 }".parse().unwrap());
    let r = r.ok().unwrap();
    let out = compact(&r.to_tokens(&vec![true]).to_string());
    assert!(out.starts_with(&tokens("struct S { a: u8 }")));
    let refused = quick_def_parse("1 +".parse().unwrap(), "marker struct S;".parse().unwrap());
    assert!(refused.err().unwrap().to_string().contains("compile_error"));
    let bad = quick_def_parse(TokenStream::new(), "marker enum E { A }".parse().unwrap());
    assert!(bad.err().unwrap().to_string().contains("compile_error"));
}
