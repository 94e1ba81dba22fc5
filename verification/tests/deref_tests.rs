use proc_macro2::TokenStream;
use quick_macros::deref_impl::{
    deref_plan, DerefImplementation, quick_deref2, ArgToken, ArgsError, DerefPlan, DerefTargetMetaArgs,
};
use quick_macros::model::FieldInfo;

fn tokens(text: &str) -> String {
    text.parse::<TokenStream>().unwrap().to_string()
}

fn expand(args: &str, input: &str) -> String {
    quick_deref2(args.parse().unwrap(), input.parse().unwrap()).to_string()
}

fn ident(name: &str) -> ArgToken {
    ArgToken { ident: Some(name.to_string()), is_equals: false }
}

fn equals() -> ArgToken {
    ArgToken { ident: None, is_equals: true }
}

fn field(name: Option<&str>, ty: &str) -> FieldInfo {
    FieldInfo { ident: name.map(|n| n.to_string()), ty: ty.to_string(), attrs: vec![] }
}

#[test]
fn newtype_deref_output() {
    let out = expand("", "pub struct SomeNewType(u8);");
    assert_eq!(
        out,
        tokens(
            "pub struct SomeNewType(u8); \
             impl ::core::ops::Deref for SomeNewType { type Target = u8; fn deref(&self) -> &Self::Target { &self.0 } }"
        )
    );
}

#[test]
fn named_target_output() {
    let out = expand("handle", "pub struct WrappedHandle { handle: u128 }");
    assert_eq!(
        out,
        tokens(
            "pub struct WrappedHandle { handle: u128 } \
             impl ::core::ops::Deref for WrappedHandle { type Target = u128; fn deref(&self) -> &Self::Target { &self.handle } }"
        )
    );
}

#[test]
fn both_argument_forms_agree() {
    let input = "struct W { a: u8, b: u16 }";
    assert_eq!(expand("target = b", input), expand("b", input));
}

#[test]
fn unknown_target_gives_no_impl() {
    let out = expand("missing", "struct W { a: u8 }");
    assert_eq!(out, tokens("struct W { a: u8 }"));
}

#[test]
fn unit_struct_is_bad_unit_field() {
    let out = expand("", "struct U;");
    assert!(out.starts_with(&tokens("struct U;")));
    assert!(out.contains("Bad unit-field"));
}

#[test]
fn invalid_target_token() {
    let out = expand("field = b", "struct W { b: u8 }");
    assert!(out.contains("Invalid target token"));
    assert!(!out.contains("struct W"));
}

#[test]
fn trailing_tokens_are_refused() {
    let out = expand("b c", "struct W { b: u8 }");
    assert!(out.contains("unexpected token"));
}

#[test]
fn keyword_target_is_refused() {
    let out = expand("self", "struct W { b: u8 }");
    assert!(out.contains("expected identifier"));
}

#[test]
fn grammar_on_tokens() {
    let a = DerefTargetMetaArgs::parse_tokens(&vec![ident("target"), equals(), ident("buffer")]).ok().unwrap();
    assert_eq!(a.target_token.as_deref(), Some("target"));
    assert!(a.equals_token);
    assert_eq!(a.target_ident, "buffer");

    let b = DerefTargetMetaArgs::parse_tokens(&vec![ident("handle")]).ok().unwrap();
    assert_eq!(b.target_token, None);
    assert!(!b.equals_token);
    assert_eq!(b.target_ident, "handle");

    assert!(DerefTargetMetaArgs::parse_tokens(&vec![ident("field"), equals(), ident("x")]).err()
        == Some(ArgsError::InvalidTargetToken(0)));
    assert!(DerefTargetMetaArgs::parse_tokens(&vec![ident("target"), equals()]).err()
        == Some(ArgsError::EndOfInput));
    assert!(DerefTargetMetaArgs::parse_tokens(&vec![ident("target"), equals(), equals()]).err()
        == Some(ArgsError::ExpectedIdent(2)));
    assert!(DerefTargetMetaArgs::parse_tokens(&vec![ident("a"), ident("b")]).err()
        == Some(ArgsError::UnexpectedToken(1)));
    assert!(DerefTargetMetaArgs::parse_tokens(&vec![ident("target"), equals(), ident("x"), ident("y")]).err()
        == Some(ArgsError::UnexpectedToken(3)));
    assert!(DerefTargetMetaArgs::parse_tokens(&vec![equals()]).err() == Some(ArgsError::ExpectedIdent(0)));
    assert!(DerefTargetMetaArgs::parse_tokens(&vec![]).err() == Some(ArgsError::EndOfInput));
}

#[test]
fn plan_on_fields() {
    let fields = vec![field(Some("a"), "u8"), field(Some("b"), "u16")];
    match deref_plan(&fields, &None) {
        DerefPlan::Targets(ts) => {
            assert_eq!(ts.len(), 1);
            assert_eq!(ts[0].member, "0");
            assert_eq!(ts[0].ty, "u8");
        }
        DerefPlan::BadUnitField => panic!("expected a target"),
    }
    let args = Some(DerefTargetMetaArgs { target_token: None, equals_token: false, target_ident: "b".to_string() });
    match deref_plan(&fields, &args) {
        DerefPlan::Targets(ts) => {
            assert_eq!(ts.len(), 1);
            assert_eq!(ts[0].member, "b");
            assert_eq!(ts[0].ty, "u16");
        }
        DerefPlan::BadUnitField => panic!("expected a target"),
    }
    assert!(matches!(deref_plan(&vec![], &None), DerefPlan::BadUnitField));
}

#[test]
fn plan_of_parsed_struct() {
    let implementor: syn::ItemStruct = syn::parse_str("struct W { a: u8, b: Vec<u16> }").unwrap();
    let imp = DerefImplementation {
        implementor,
        args: Some(DerefTargetMetaArgs { target_token: None, equals_token: false, target_ident: "b".to_string() }),
    };
    let (name, plan) = imp.plan();
    assert_eq!(name, "W");
    match plan {
        DerefPlan::Targets(ts) => {
            assert_eq!(ts.len(), 1);
            assert_eq!(ts[0].member, "b");
            assert_eq!(ts[0].ty, "Vec < u16 >");
        }
        DerefPlan::BadUnitField => panic!("expected a target"),
    }
}

#[test]
fn missing_name_after_equals() {
    let err = DerefTargetMetaArgs::parse("target =".parse().unwrap()).err().unwrap();
    assert_eq!(err.to_string(), "unexpected end of input, expected identifier");
    let err = DerefTargetMetaArgs::parse("b c".parse().unwrap()).err().unwrap();
    assert_eq!(err.to_string(), "unexpected token");
}

fn mixed_struct() -> syn::ItemStruct {
    let mut item: syn::ItemStruct = syn::parse_str("struct M { a: u8, b: u16 }").unwrap();
    if let syn::Fields::Named(f) = &mut item.fields {
        f.named[1].ident = None;
    }
    item
}

#[test]
fn mixed_body_still_gets_its_impl() {
    let out = DerefImplementation { implementor: mixed_struct(), args: None }.to_tokens().to_string();
    assert!(out.contains(&tokens("impl ::core::ops::Deref for M")));
    assert!(out.contains(&tokens("type Target = u8;")));
    let out = DerefImplementation {
        implementor: mixed_struct(),
        args: Some(DerefTargetMetaArgs { target_token: None, equals_token: false, target_ident: "a".to_string() }),
    }
    .to_tokens()
    .to_string();
    assert!(out.contains(&tokens("&self.a")));
}

#[test]
fn no_matching_field_adds_nothing() {
    let out = expand("c", "struct W { a: u8, b: u16 }");
    assert_eq!(out, tokens("struct W { a: u8, b: u16 }"));
}
