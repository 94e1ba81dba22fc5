use quick_macros::default_expr::{
    named_default_fields_to_default_body, try_extract_field_default_attribute,
    unnamed_default_fields_to_default_body, Member, QuickDefaultExpression, QuickDefaultField2,
    QuickDefaultFieldsNamed2, QuickDefaultFieldsUnnamed2, QuickDefaultMarker,
};
use quick_macros::default_impl::{
    DefaultAttrError, QuickDefaultAttribute, QuickDefaultField, QuickDefaultFields,
    GenericsText, QuickDefaultImplementation, QuickDefaultStruct,
};
use quick_macros::model::{AttrInfo, AttrMeta, FieldInfo, FieldsInfo, FieldsShape};
use quick_macros::reader::read_struct;
use quick_macros::text::TokenText;

fn list(position: usize, name: &str, tokens: &str) -> AttrInfo {
    AttrInfo { position, meta: AttrMeta::List { ident: Some(name.to_string()), tokens: tokens.to_string() } }
}

fn field(name: Option<&str>, ty: &str, attrs: Vec<AttrInfo>) -> FieldInfo {
    FieldInfo { ident: name.map(|n| n.to_string()), ty: ty.to_string(), attrs }
}

fn positions(attrs: &[AttrInfo]) -> Vec<usize> {
    attrs.iter().map(|a| a.position).collect()
}

#[test]
fn attribute_errors() {
    let path = AttrInfo { position: 0, meta: AttrMeta::Path };
    assert!(QuickDefaultAttribute::try_from(path).err() == Some(DefaultAttrError::ExpectedList));
    let name_value = AttrInfo { position: 0, meta: AttrMeta::NameValue };
    assert!(QuickDefaultAttribute::try_from(name_value).err() == Some(DefaultAttrError::ExpectedList));
    let long_path = AttrInfo { position: 0, meta: AttrMeta::List { ident: None, tokens: "1".to_string() } };
    assert!(QuickDefaultAttribute::try_from(long_path).err() == Some(DefaultAttrError::ExpectedIdent));
    assert!(QuickDefaultAttribute::try_from(list(0, "allow", "x")).err() == Some(DefaultAttrError::MalformedDefault));
    assert_eq!(DefaultAttrError::MalformedDefault.message(), Some("Malformed default"));
    assert_eq!(DefaultAttrError::ExpectedList.message(), None);
    assert!(QuickDefaultAttribute::try_from(list(0, "default", "+")).err() == Some(DefaultAttrError::ExpectedExpression));
    assert_eq!(QuickDefaultAttribute::try_from(list(0, "default", "1 + 1")).ok().unwrap().attr_expr, "1 + 1");
    let ok = QuickDefaultAttribute::try_from(list(3, "default", "64")).ok().unwrap();
    assert_eq!(ok.attr_expr, "64");
    assert_eq!(ok.attr.position, 3);
}

#[test]
fn field_keeps_other_attributes() {
    let f = field(
        Some("a"),
        "u32",
        vec![list(0, "allow", "dead_code"), list(1, "default", "1"), list(2, "serde", "skip"), list(3, "default", "\"x\"")],
    );
    let q = QuickDefaultField::from(f);
    assert_eq!(positions(&q.attrs), vec![0, 2]);
    assert_eq!(q.default_value_attr.as_ref().unwrap().attr_expr, "\"x\"");
    assert_eq!(q.default_value_attr.as_ref().unwrap().attr.position, 3);
    assert_eq!(q.ident.as_deref(), Some("a"));
    assert!(q.colon_token);
    assert_eq!(q.ty, "u32");
}

#[test]
fn field_without_attributes_has_no_default() {
    let q = QuickDefaultField::from(field(None, "u8", vec![]));
    assert!(q.attrs.is_empty());
    assert!(q.default_value_attr.is_none());
    assert!(!q.colon_token);
}

#[test]
fn field_keeps_attributes_of_any_form() {
    let f = field(
        Some("a"),
        "u8",
        vec![list(0, "default", "1"), AttrInfo { position: 1, meta: AttrMeta::NameValue }, AttrInfo { position: 2, meta: AttrMeta::List { ident: None, tokens: String::new() } }],
    );
    let q = QuickDefaultField::from(f);
    assert_eq!(positions(&q.attrs), vec![1, 2]);
    assert_eq!(q.default_value_attr.unwrap().attr_expr, "1");
}

#[test]
fn body_with_path_attribute_is_prepared() {
    let fields = FieldsInfo {
        shape: FieldsShape::Named,
        trailing_comma: true,
        fields: vec![field(Some("a"), "u8", vec![AttrInfo { position: 0, meta: AttrMeta::Path }]), field(Some("b"), "u8", vec![list(0, "default", "2")])],
    };
    let prepared = QuickDefaultFields::from(fields);
    assert!(matches!(prepared, QuickDefaultFields::DefaultNamed(_)));
    let imp = QuickDefaultImplementation {
        implementor_ident: "S".to_string(),
        implementor_generics: GenericsText::none(),
        implementor_fields: prepared,
    };
    assert_eq!(
        imp.to_text().render(),
        "impl Default for S { fn default ( ) -> Self { S { a : ::std::default::Default::default() , b : 2 } } }"
    );
}

#[test]
fn body_kept_as_written_lists_every_field() {
    let fields = FieldsInfo {
        shape: FieldsShape::Named,
        trailing_comma: true,
        fields: vec![field(Some("a"), "u8", vec![]), field(Some("b"), "u8", vec![])],
    };
    let imp = QuickDefaultImplementation {
        implementor_ident: "S".to_string(),
        implementor_generics: GenericsText::none(),
        implementor_fields: QuickDefaultFields::SynFields(fields),
    };
    assert_eq!(
        imp.to_text().render(),
        "impl Default for S { fn default ( ) -> Self { S { a : ::std::default::Default::default() , b : ::std::default::Default::default() , } } }"
    );
}

#[test]
fn prepared_named_body_text() {
    let fields = FieldsInfo {
        shape: FieldsShape::Named,
        trailing_comma: false,
        fields: vec![field(Some("a"), "u32", vec![list(0, "default", "64")]), field(Some("b"), "u16", vec![])],
    };
    let prepared = QuickDefaultFields::from(fields);
    let emitted = prepared.to_fields();
    assert!(!emitted.trailing_comma);
    assert_eq!(emitted.fields.len(), 2);
    assert!(emitted.fields[0].attrs.is_empty());
    let imp = QuickDefaultImplementation {
        implementor_ident: "CoolStruct".to_string(),
        implementor_generics: GenericsText::none(),
        implementor_fields: prepared,
    };
    assert_eq!(
        imp.to_text().render(),
        "impl Default for CoolStruct { fn default ( ) -> Self { CoolStruct { a : 64 , b : ::std::default::Default::default() } } }"
    );
}

#[test]
fn token_text_render() {
    let mut t = TokenText::new();
    assert_eq!(t.render(), "");
    t.push("a");
    assert_eq!(t.render(), "a");
    t.push_string("b c".to_string());
    assert_eq!(t.render(), "a b c");
}

#[test]
fn extract_expression_default() {
    let f = field(Some("a"), "u8", vec![list(0, "default", "1+1"), list(1, "allow", "x")]);
    let (out, expr) = try_extract_field_default_attribute(f).ok().unwrap();
    assert_eq!(positions(&out.attrs), vec![1]);
    assert_eq!(expr.unwrap().0, "1+1");

    let bad = field(Some("a"), "u8", vec![list(0, "default", "+"), list(1, "default", "3")]);
    assert!(try_extract_field_default_attribute(bad).is_err());

    let (plain, none) = try_extract_field_default_attribute(field(None, "u8", vec![])).ok().unwrap();
    assert!(plain.attrs.is_empty());
    assert!(none.is_none());
}

#[test]
fn expression_defaults() {
    assert_eq!(QuickDefaultExpression::default().0, "::std::default::Default::default()");
    assert_eq!(QuickDefaultExpression::parse(&"a+b".to_string()).ok().unwrap().0, "a+b");
    assert!(QuickDefaultExpression::parse(&"+".to_string()).is_err());
}

#[test]
fn field_values() {
    let unnamed = QuickDefaultFieldsUnnamed2 {
        unnamed: vec![
            QuickDefaultField2 { field: field(None, "u8", vec![]), def_expr: Some(QuickDefaultExpression("5".to_string())) },
            QuickDefaultField2 { field: field(None, "u8", vec![list(0, "allow", "x")]), def_expr: None },
        ],
    };
    let values = unnamed_default_fields_to_default_body(unnamed);
    assert_eq!(values.len(), 2);
    assert!(matches!(values[0].member, Member::Unnamed(0)));
    assert!(matches!(values[1].member, Member::Unnamed(1)));
    assert_eq!(values[0].expr, "5");
    assert_eq!(values[1].expr, "::std::default::Default::default()");
    assert_eq!(positions(&values[1].attrs), vec![0]);
    assert!(!values[0].colon_token);

    let named = QuickDefaultFieldsNamed2 {
        named: vec![QuickDefaultField2 { field: field(Some("x"), "u8", vec![]), def_expr: None }],
    };
    let values = named_default_fields_to_default_body(named);
    assert!(matches!(&values[0].member, Member::Named(n) if n == "x"));
    assert!(values[0].colon_token);
}

#[test]
fn marker_parse() {
    let ok = QuickDefaultMarker::parse("quick_default".parse().unwrap()).ok().unwrap();
    assert_eq!(ok.ident, "quick_default");
    let err = QuickDefaultMarker::parse("quick_deref".parse().unwrap()).err().unwrap();
    assert_eq!(err.to_string(), "Expected quick-default");
    assert!(QuickDefaultMarker::parse("1".parse().unwrap()).is_err());
    let prefix = QuickDefaultMarker::parse("quick_default , more".parse().unwrap()).ok().unwrap();
    assert_eq!(prefix.ident, "quick_default");
    let other = QuickDefaultMarker::parse("other more".parse().unwrap()).err().unwrap();
    assert_eq!(other.to_string(), "Expected quick-default");
    let empty = QuickDefaultMarker::parse(proc_macro2::TokenStream::new()).err().unwrap();
    assert_eq!(empty.to_string(), "unexpected end of input, expected identifier");
    assert!(QuickDefaultMarker::is_marker(&"quick_default".to_string()));
}

#[test]
fn reading_a_struct() {
    let item: syn::ItemStruct =
        syn::parse_str("struct S<T> { #[default(1)] #[doc = \"d\"] pub a: Vec<T>, b: u8, }").unwrap();
    let info = read_struct(&item);
    assert_eq!(info.ident, "S");
    assert!(info.fields.shape == FieldsShape::Named);
    assert!(info.fields.trailing_comma);
    assert_eq!(info.fields.fields.len(), 2);
    let a = &info.fields.fields[0];
    assert_eq!(a.ident.as_deref(), Some("a"));
    assert_eq!(a.ty, "Vec < T >");
    assert_eq!(positions(&a.attrs), vec![0, 1]);
    assert!(matches!(&a.attrs[0].meta, AttrMeta::List { ident: Some(n), tokens } if n == "default" && tokens == "1"));
    assert!(matches!(a.attrs[1].meta, AttrMeta::NameValue));

    let unit: syn::ItemStruct = syn::parse_str("struct U;").unwrap();
    let info = read_struct(&unit);
    assert!(info.fields.shape == FieldsShape::Unit);
    assert!(info.fields.fields.is_empty());
}

#[test]
fn preparing_is_total() {
    let mut item: syn::ItemStruct = syn::parse_str("struct M { #[default(3)] a: u8, b: u16 }").unwrap();
    if let syn::Fields::Named(f) = &mut item.fields {
        f.named[1].ident = None;
    }
    let s = QuickDefaultStruct::from(item);
    assert_eq!(s.ident, "M");
    assert!(matches!(s.fields, QuickDefaultFields::DefaultNamed(_)));
    let info = read_struct(&s.item);
    assert_eq!(info.fields.fields.len(), 2);
    assert!(info.fields.fields[1].ident.is_none());
}

#[test]
fn marker_refusal_is_at_the_identifier() {
    let input: proc_macro2::TokenStream = "other".parse().unwrap();
    let span = input.clone().into_iter().next().unwrap().span();
    let err = QuickDefaultMarker::parse(input).err().unwrap();
    assert_eq!(err.to_string(), "Expected quick-default");
    assert_eq!(format!("{:?}", err.span()), format!("{:?}", span));
}
