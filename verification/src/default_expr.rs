//! Field defaults given as expressions: `#[default(expression)]` read into a
//! field initializer, and the parsing of the `quick_default` marker.
use vstd::prelude::*;
use crate::default_impl::{is_default_attr, kept_attrs, list_tokens};
use crate::model::{AttrInfo, AttrMeta, FieldInfo, clone_attrs};
use crate::syntax::{
    error_at_tree, error_message, error_spanning, error_spans, error_trees, expression_parses,
    parse_expression, parse_tree_ident, stream_trees, tree_ident, tree_span, TreeView,
};

verus! {

/// The marker identifier `quick_default`.
pub struct QuickDefaultMarker {
    pub ident: String,
}

impl QuickDefaultMarker {
    /// Whether an identifier is the marker.
    pub fn is_marker(ident: &String) -> (r: bool)
        ensures
            r == (ident@ == "quick_default"@),
    {
        *ident == String::from_str("quick_default")
    }

    /// Reads the marker from the start of the stream: the next token must
    /// be the identifier `quick_default`; what follows it is left to the
    /// caller. Any other identifier is refused with "Expected quick-default"
    /// at that identifier; another token gets `syn`'s error for it.
    pub fn parse(input: proc_macro2::TokenStream) -> (r: Result<QuickDefaultMarker, syn::Error>)
        ensures
            stream_trees(input).len() == 0 ==> (r matches Err(e) && error_message(e)
                == "unexpected end of input, expected identifier"@),
            stream_trees(input).len() > 0 ==> match tree_ident(input, 0) {
                Ok(i) => if i == "quick_default"@ {
                    r matches Ok(m) && m.ident@ == i
                } else {
                    r matches Err(e) && error_message(e) == "Expected quick-default"@ && error_spans(e) == (
                        tree_span(input, 0),
                        tree_span(input, 0),
                    )
                },
                Err(t) => r matches Err(e) && error_trees(e) == t,
            },
    {
        match parse_tree_ident(&input, 0) {
            None => Err(error_spanning(&input, "unexpected end of input, expected identifier")),
            Some(Err(e)) => Err(e),
            Some(Ok(ident)) => {
                if QuickDefaultMarker::is_marker(&ident) {
                    Ok(QuickDefaultMarker { ident })
                } else {
                    match error_at_tree(&input, 0, "Expected quick-default") {
                        Some(e) => Err(e),
                        None => Err(error_spanning(&input, "Expected quick-default")),
                    }
                }
            },
        }
    }
}

/// The expression a field is initialized with.
pub struct QuickDefaultExpression(pub String);

/// The text of the default call.
pub open spec fn default_call_text() -> Seq<char> {
    "::std::default::Default::default()"@
}

impl Default for QuickDefaultExpression {
    /// `::std::default::Default::default()`.
    fn default() -> (r: Self)
        ensures
            r.0@ == default_call_text(),
    {
        QuickDefaultExpression(String::from_str("::std::default::Default::default()"))
    }
}

impl Clone for QuickDefaultExpression {
    fn clone(&self) -> (r: Self)
        ensures
            r == *self,
    {
        QuickDefaultExpression(self.0.clone())
    }
}

impl QuickDefaultExpression {
    /// Reads the tokens as an expression, which is then the tokens
    /// themselves; `syn`'s error when they are not one expression.
    pub fn parse(tokens: &String) -> (r: Result<QuickDefaultExpression, syn::Error>)
        ensures
            r is Ok == expression_parses(tokens@),
            r matches Ok(e) ==> e.0@ == tokens@,
    {
        match parse_expression(tokens) {
            Ok(()) => Ok(QuickDefaultExpression(tokens.clone())),
            Err(e) => Err(e),
        }
    }
}

/// A field and the expression it is initialized with, if one was given.
pub struct QuickDefaultField2 {
    pub field: FieldInfo,
    pub def_expr: Option<QuickDefaultExpression>,
}

/// The expression of the last `#[default(...)]` attribute (if any); `None`
/// when some such attribute's arguments are not an expression.
pub open spec fn extracted_default(attrs: Seq<AttrInfo>) -> Option<Option<Seq<char>>>
    decreases attrs.len(),
{
    if attrs.len() == 0 {
        Some(None)
    } else {
        match extracted_default(attrs.drop_last()) {
            None => None,
            Some(before) => if is_default_attr(attrs.last()) {
                if expression_parses(list_tokens(attrs.last())) {
                    Some(Some(list_tokens(attrs.last())))
                } else {
                    None
                }
            } else {
                Some(before)
            },
        }
    }
}

proof fn lemma_extracted_error_prefix(attrs: Seq<AttrInfo>, k: int)
    requires
        0 <= k <= attrs.len(),
        extracted_default(attrs.take(k)) is None,
    ensures
        extracted_default(attrs) == extracted_default(attrs.take(k)),
    decreases attrs.len(),
{
    if k == attrs.len() {
        assert(attrs.take(k) =~= attrs);
    } else {
        assert(attrs.drop_last().take(k) =~= attrs.take(k));
        lemma_extracted_error_prefix(attrs.drop_last(), k);
    }
}

/// The expression `e` stands for the extracted default `d`.
pub open spec fn expression_agrees(e: Option<QuickDefaultExpression>, d: Option<Seq<char>>) -> bool {
    match (e, d) {
        (None, None) => true,
        (Some(e), Some(d)) => e.0@ == d,
        _ => false,
    }
}

/// Splits a field into the field without its `#[default(...)]` attributes
/// and the expression of the last of them. The first such attribute whose
/// arguments are not an expression makes the whole call fail with the
/// parser's error.
pub fn try_extract_field_default_attribute(in_field: FieldInfo) -> (r: Result<
    (FieldInfo, Option<QuickDefaultExpression>),
    syn::Error,
>)
    ensures
        match extracted_default(in_field.attrs@) {
            None => r is Err,
            Some(d) => r matches Ok((f, e)) && f.ident == in_field.ident && f.ty == in_field.ty
                && f.attrs@ == kept_attrs(in_field.attrs@) && expression_agrees(e, d),
        },
        r is Ok <==> forall|j: int|
            0 <= j < in_field.attrs@.len() && is_default_attr(#[trigger] in_field.attrs@[j])
                ==> expression_parses(list_tokens(in_field.attrs@[j])),
        r matches Ok((_, None)) ==> forall|j: int|
            0 <= j < in_field.attrs@.len() ==> !is_default_attr(#[trigger] in_field.attrs@[j]),
        r matches Ok((_, Some(e))) ==> exists|j: int|
            0 <= j < in_field.attrs@.len() && is_default_attr(#[trigger] in_field.attrs@[j]) && e.0@
                == list_tokens(in_field.attrs@[j]) && forall|k: int|
                j < k < in_field.attrs@.len() ==> !is_default_attr(#[trigger] in_field.attrs@[k]),
{
    proof {
        crate::laws::law_extracted_default_is_last(in_field.attrs@);
    }
    let mut def_attr: Option<QuickDefaultExpression> = None;
    if in_field.attrs.len() == 0 {
        assert(kept_attrs(in_field.attrs@) =~= Seq::<AttrInfo>::empty());
        return Ok((in_field, def_attr));
    }
    let mut out_attrs: Vec<AttrInfo> = Vec::new();
    let mut i: usize = 0;
    while i < in_field.attrs.len()
        invariant
            i <= in_field.attrs@.len(),
            extracted_default(in_field.attrs@.take(i as int)) matches Some(d) && expression_agrees(
                def_attr,
                d,
            ),
            out_attrs@ == kept_attrs(in_field.attrs@.take(i as int)),
        decreases in_field.attrs@.len() - i,
    {
        let ghost prefix = in_field.attrs@.take(i + 1);
        assert(prefix.drop_last() =~= in_field.attrs@.take(i as int));
        assert(prefix.last() == in_field.attrs@[i as int]);
        let attr = &in_field.attrs[i];
        match &attr.meta {
            AttrMeta::List { ident: Some(name), tokens } => {
                if *name != String::from_str("default") {
                    out_attrs.push(attr.clone());
                } else {
                    match QuickDefaultExpression::parse(tokens) {
                        Ok(e) => {
                            def_attr = Some(e);
                        },
                        Err(m) => {
                            proof {
                                lemma_extracted_error_prefix(in_field.attrs@, i + 1);
                            }
                            return Err(m);
                        },
                    }
                }
            },
            _ => {
                out_attrs.push(attr.clone());
            },
        }
        i += 1;
    }
    assert(in_field.attrs@.take(in_field.attrs@.len() as int) =~= in_field.attrs@);
    let FieldInfo { ident, ty, attrs: _ } = in_field;
    Ok((FieldInfo { ident, ty, attrs: out_attrs }, def_attr))
}

/// The member a field initializer names: a field name or a tuple index.
pub enum Member {
    Named(String),
    Unnamed(usize),
}

/// A field initializer `member: expression` with the field's attributes.
pub struct FieldValue {
    pub attrs: Vec<AttrInfo>,
    pub member: Member,
    pub colon_token: bool,
    pub expr: String,
}

/// The fields of a tuple struct with their expressions.
pub struct QuickDefaultFieldsUnnamed2 {
    pub unnamed: Vec<QuickDefaultField2>,
}

/// The named fields of a struct with their expressions.
pub struct QuickDefaultFieldsNamed2 {
    pub named: Vec<QuickDefaultField2>,
}

/// The expression a field is initialized with: its own, or the default call.
pub open spec fn initializer(e: Option<QuickDefaultExpression>) -> Seq<char> {
    match e {
        Some(e) => e.0@,
        None => default_call_text(),
    }
}

/// `v` initializes field `f` with the field's expression.
pub open spec fn initializes(f: QuickDefaultField2, v: FieldValue) -> bool {
    &&& v.attrs@ == f.field.attrs@
    &&& v.colon_token == f.field.ident is Some
    &&& v.expr@ == initializer(f.def_expr)
}

fn expression_text(e: &Option<QuickDefaultExpression>) -> (r: String)
    ensures
        r@ == initializer(*e),
{
    let QuickDefaultExpression(expr) = match e {
        Some(e) => e.clone(),
        None => QuickDefaultExpression::default(),
    };
    expr
}

/// Field initializers for a tuple struct: field `i` is initialized through
/// member `i` with its expression.
pub fn unnamed_default_fields_to_default_body(fields: QuickDefaultFieldsUnnamed2) -> (r: Vec<
    FieldValue,
>)
    ensures
        r@.len() == fields.unnamed@.len(),
        forall|i: int|
            0 <= i < r@.len() ==> initializes(fields.unnamed@[i], #[trigger] r@[i])
                && r@[i].member == Member::Unnamed(i as usize),
{
    let mut buf: Vec<FieldValue> = Vec::new();
    let mut index: usize = 0;
    while index < fields.unnamed.len()
        invariant
            index <= fields.unnamed@.len(),
            buf@.len() == index,
            forall|i: int|
                0 <= i < index ==> initializes(fields.unnamed@[i], #[trigger] buf@[i])
                    && buf@[i].member == Member::Unnamed(i as usize),
        decreases fields.unnamed@.len() - index,
    {
        let value = &fields.unnamed[index];
        let field_value = FieldValue {
            attrs: clone_attrs(&value.field.attrs),
            member: Member::Unnamed(index),
            colon_token: value.field.ident.is_some(),
            expr: expression_text(&value.def_expr),
        };
        buf.push(field_value);
        index += 1;
    }
    buf
}

/// Field initializers for a struct with named fields: each field is
/// initialized through its name with its expression.
pub fn named_default_fields_to_default_body(fields: QuickDefaultFieldsNamed2) -> (r: Vec<FieldValue>)
    requires
        forall|i: int| 0 <= i < fields.named@.len() ==> (#[trigger] fields.named@[i]).field.ident is Some,
    ensures
        r@.len() == fields.named@.len(),
        forall|i: int|
            0 <= i < r@.len() ==> initializes(fields.named@[i], #[trigger] r@[i])
                && r@[i].member == Member::Named(fields.named@[i].field.ident->0),
{
    let mut buf: Vec<FieldValue> = Vec::new();
    let mut index: usize = 0;
    while index < fields.named.len()
        invariant
            index <= fields.named@.len(),
            buf@.len() == index,
            forall|i: int| 0 <= i < fields.named@.len() ==> (#[trigger] fields.named@[i]).field.ident is Some,
            forall|i: int|
                0 <= i < index ==> initializes(fields.named@[i], #[trigger] buf@[i])
                    && buf@[i].member == Member::Named(fields.named@[i].field.ident->0),
        decreases fields.named@.len() - index,
    {
        let value = &fields.named[index];
        let ident = match &value.field.ident {
            Some(i) => i.clone(),
            None => String::new(),
        };
        let field_value = FieldValue {
            attrs: clone_attrs(&value.field.attrs),
            member: Member::Named(ident),
            colon_token: value.field.ident.is_some(),
            expr: expression_text(&value.def_expr),
        };
        buf.push(field_value);
        index += 1;
    }
    buf
}

} // verus!
