//! `quick_default`: a `Default` impl whose field values come from
//! `#[default(value)]` field attributes.
//!
//! A field without such an attribute gets `::std::default::Default::default()`;
//! the field's other attributes stay, whatever their form. The impl carries
//! the struct's generics, with a `Default` bound on each type parameter.
use vstd::prelude::*;
use crate::model::{
    AttrInfo, AttrMeta, AttrMetaView, FieldInfo, FieldView, FieldsInfo, FieldsShape, StructInfo,
    body_consistent, clone_attrs, field_views, metas,
};
use crate::reader::{read_struct, reads};
use crate::syntax::{
    append_tokens, attr_metas, attribute_meta, clone_struct, drop_trailing_comma, empty_tokens,
    error_tokens, error_trees, expression_parses, field_attr, generated_trees, parse_expression,
    generics_split, texts, type_params, struct_type_params, parse_item_struct, printed_view, struct_generics, attr_trees, attribute_trees, struct_field_trees, trees_aligned, FieldTrees, set_field_attrs, stream_trees, struct_fields, struct_frame,
    struct_name, struct_parse, struct_shape_of, struct_tokens, struct_trailing, struct_view,
    StructView, TreeView,
};
use crate::text::TokenText;

verus! {

/// The identifier of the attribute that gives a field its default.
pub open spec fn is_default_name(name: Seq<char>) -> bool {
    name == "default"@
}

/// The attribute is `#[name(...)]` with a single identifier as its name.
pub open spec fn is_ident_list(a: AttrInfo) -> bool {
    a.meta matches AttrMeta::List { ident: Some(_), .. }
}

/// The attribute is `#[default(...)]`.
pub open spec fn is_default_attr(a: AttrInfo) -> bool {
    a.meta matches AttrMeta::List { ident: Some(name), .. } && is_default_name(name@)
}

/// The attributes that stay on a field: all but the `#[default(...)]` ones,
/// in their order.
pub open spec fn kept_attrs(attrs: Seq<AttrInfo>) -> Seq<AttrInfo>
    decreases attrs.len(),
{
    if attrs.len() == 0 {
        Seq::empty()
    } else if is_default_attr(attrs.last()) {
        kept_attrs(attrs.drop_last())
    } else {
        kept_attrs(attrs.drop_last()).push(attrs.last())
    }
}

/// The argument tokens of a list attribute.
pub open spec fn list_tokens(a: AttrInfo) -> Seq<char> {
    match a.meta {
        AttrMeta::List { tokens, .. } => tokens@,
        _ => Seq::empty(),
    }
}

/// The last `#[default(...)]` attribute whose arguments are one
/// expression, with the expression's text.
pub open spec fn last_default(attrs: Seq<AttrInfo>) -> Option<(AttrInfo, Seq<char>)>
    decreases attrs.len(),
{
    if attrs.len() == 0 {
        None
    } else if is_default_attr(attrs.last()) && expression_parses(list_tokens(attrs.last())) {
        Some((attrs.last(), list_tokens(attrs.last())))
    } else {
        last_default(attrs.drop_last())
    }
}

/// Why an attribute is not a usable `#[default(value)]`.
#[derive(PartialEq, Eq, Structural, Clone, Copy)]
pub enum DefaultAttrError {
    /// The attribute is not of the form `#[path(...)]`.
    ExpectedList,
    /// The attribute's path is not a single identifier.
    ExpectedIdent,
    /// The attribute's name is not `default`.
    MalformedDefault,
    /// The attribute's arguments are not exactly one expression.
    ExpectedExpression,
}

impl DefaultAttrError {
    /// The message of a refusal that this crate words itself: "Malformed
    /// default" for an attribute of another name; the other refusals are the
    /// parser's.
    pub fn message(&self) -> (r: Option<&'static str>)
        ensures
            *self == DefaultAttrError::MalformedDefault ==> (r matches Some(m) && m@ == "Malformed default"@),
            *self != DefaultAttrError::MalformedDefault ==> r is None,
    {
        match self {
            DefaultAttrError::MalformedDefault => Some("Malformed default"),
            _ => None,
        }
    }
}

/// A `#[default(value)]` attribute: the attribute and the value's text.
pub struct QuickDefaultAttribute {
    pub attr: AttrInfo,
    pub attr_expr: String,
}

impl QuickDefaultAttribute {
    /// Reads an attribute as `#[default(value)]`, the value being one
    /// expression.
    pub fn try_from(attr: AttrInfo) -> (r: Result<QuickDefaultAttribute, DefaultAttrError>)
        ensures
            !(attr.meta is List) ==> r == Err::<QuickDefaultAttribute, _>(
                DefaultAttrError::ExpectedList,
            ),
            attr.meta is List && !is_ident_list(attr) ==> r == Err::<QuickDefaultAttribute, _>(
                DefaultAttrError::ExpectedIdent,
            ),
            is_ident_list(attr) && !is_default_attr(attr) ==> r == Err::<QuickDefaultAttribute, _>(
                DefaultAttrError::MalformedDefault,
            ),
            is_default_attr(attr) && !expression_parses(list_tokens(attr)) ==> r
                == Err::<QuickDefaultAttribute, _>(DefaultAttrError::ExpectedExpression),
            is_default_attr(attr) && expression_parses(list_tokens(attr)) ==> (r matches Ok(d)
                && d.attr == attr && d.attr_expr@ == list_tokens(attr)),
    {
        let value = match &attr.meta {
            AttrMeta::List { ident: Some(name), tokens } => {
                if *name != String::from_str("default") {
                    return Err(DefaultAttrError::MalformedDefault);
                }
                match parse_expression(tokens) {
                    Ok(()) => tokens.clone(),
                    Err(_) => return Err(DefaultAttrError::ExpectedExpression),
                }
            },
            AttrMeta::List { ident: None, .. } => return Err(DefaultAttrError::ExpectedIdent),
            _ => return Err(DefaultAttrError::ExpectedList),
        };
        Ok(QuickDefaultAttribute { attr, attr_expr: value })
    }
}

/// A struct field prepared for the `Default` impl: its remaining attributes
/// and its `#[default(value)]`, if any.
pub struct QuickDefaultField {
    pub attrs: Vec<AttrInfo>,
    pub default_value_attr: Option<QuickDefaultAttribute>,
    /// Name of the field, if any.
    ///
    /// Fields of tuple structs have no names.
    pub ident: Option<String>,
    /// Whether a `:` follows the name (it does for named fields).
    pub colon_token: bool,
    pub ty: String,
}

/// The default a field ends up with agrees with the last usable
/// `#[default(value)]` among its attributes.
pub open spec fn default_agrees(
    d: Option<QuickDefaultAttribute>,
    last: Option<(AttrInfo, Seq<char>)>,
) -> bool {
    match (d, last) {
        (None, None) => true,
        (Some(d), Some((a, lit))) => d.attr == a && d.attr_expr@ == lit,
        _ => false,
    }
}

/// `q` is the field `f` prepared for the `Default` impl.
pub open spec fn converts_to(f: FieldInfo, q: QuickDefaultField) -> bool {
    &&& q.attrs@ == kept_attrs(f.attrs@)
    &&& default_agrees(q.default_value_attr, last_default(f.attrs@))
    &&& q.ident == f.ident
    &&& q.colon_token == f.ident is Some
    &&& q.ty == f.ty
}

impl Clone for QuickDefaultAttribute {
    fn clone(&self) -> (r: Self)
        ensures
            r == *self,
    {
        QuickDefaultAttribute { attr: self.attr.clone(), attr_expr: self.attr_expr.clone() }
    }
}

impl QuickDefaultField {
    /// Prepares a field: drops its `#[default(...)]` attributes and keeps the
    /// value of the last one whose arguments are one expression. Every other
    /// attribute stays, whatever its form.
    pub fn from(value: FieldInfo) -> (r: QuickDefaultField)
        ensures
            converts_to(value, r),
    {
        let FieldInfo { ident, ty, attrs: field_attrs } = value;
        let mut attrs: Vec<AttrInfo> = Vec::new();
        let mut default_value_attr: Option<QuickDefaultAttribute> = None;
        let mut i: usize = 0;
        while i < field_attrs.len()
            invariant
                i <= field_attrs@.len(),
                field_attrs@ == value.attrs@,
                attrs@ == kept_attrs(field_attrs@.take(i as int)),
                default_agrees(default_value_attr, last_default(field_attrs@.take(i as int))),
            decreases field_attrs@.len() - i,
        {
            let ghost prefix = field_attrs@.take(i + 1);
            assert(prefix.drop_last() =~= field_attrs@.take(i as int));
            assert(prefix.last() == field_attrs@[i as int]);
            let attr = &field_attrs[i];
            let is_default = match &attr.meta {
                AttrMeta::List { ident: Some(name), .. } => *name == String::from_str("default"),
                _ => false,
            };
            if is_default {
                if let Ok(d) = QuickDefaultAttribute::try_from(attr.clone()) {
                    default_value_attr = Some(d);
                }
            } else {
                attrs.push(attr.clone());
            }
            i += 1;
        }
        assert(field_attrs@.take(field_attrs@.len() as int) =~= field_attrs@);
        let colon_token = ident.is_some();
        QuickDefaultField { attrs, default_value_attr, ident, colon_token, ty }
    }
}

/// Each of `qs` is the corresponding field of `fields` prepared.
pub open spec fn all_convert(fields: Seq<FieldInfo>, qs: Seq<QuickDefaultField>) -> bool {
    &&& qs.len() == fields.len()
    &&& forall|i: int| 0 <= i < fields.len() ==> converts_to(fields[i], #[trigger] qs[i])
}

/// Prepares every field.
fn convert_fields(fields: &Vec<FieldInfo>) -> (r: Vec<QuickDefaultField>)
    ensures
        all_convert(fields@, r@),
{
    let mut output: Vec<QuickDefaultField> = Vec::new();
    let mut i: usize = 0;
    while i < fields.len()
        invariant
            i <= fields@.len(),
            all_convert(fields@.take(i as int), output@),
        decreases fields@.len() - i,
    {
        let ghost prefix = fields@.take(i + 1);
        assert(prefix.drop_last() =~= fields@.take(i as int));
        assert(prefix.last() == fields@[i as int]);
        output.push(QuickDefaultField::from(fields[i].clone()));
        i += 1;
        assert forall|j: int| 0 <= j < i implies converts_to(
            fields@.take(i as int)[j],
            #[trigger] output@[j],
        ) by {
            if j < i - 1 {
                assert(fields@.take(i - 1)[j] == fields@.take(i as int)[j]);
            }
        }
    }
    assert(fields@.take(fields@.len() as int) =~= fields@);
    output
}

/// The named fields of a struct, prepared.
pub struct QuickDefaultFieldsNamed {
    pub named: Vec<QuickDefaultField>,
}

impl QuickDefaultFieldsNamed {
    /// Prepares every named field.
    pub fn from(named: Vec<FieldInfo>) -> (r: QuickDefaultFieldsNamed)
        ensures
            all_convert(named@, r.named@),
    {
        QuickDefaultFieldsNamed { named: convert_fields(&named) }
    }
}

/// The fields of a tuple struct, prepared.
pub struct QuickDefaultFieldsUnnamed {
    pub unnamed: Vec<QuickDefaultField>,
}

impl QuickDefaultFieldsUnnamed {
    /// Prepares every tuple field.
    pub fn from(unnamed: Vec<FieldInfo>) -> (r: QuickDefaultFieldsUnnamed)
        ensures
            all_convert(unnamed@, r.unnamed@),
    {
        QuickDefaultFieldsUnnamed { unnamed: convert_fields(&unnamed) }
    }
}

/// The body of a struct under `quick_default`: prepared named or tuple
/// fields, or a body as written (a unit struct's).
pub enum QuickDefaultFields {
    DefaultNamed(QuickDefaultFieldsNamed),
    DefaultUnnamed(QuickDefaultFieldsUnnamed),
    SynFields(FieldsInfo),
}

/// `r` is the struct body emitted for `fields` (the contract of
/// [`QuickDefaultFields::to_fields`]).
pub open spec fn emits(fields: QuickDefaultFields, r: FieldsInfo) -> bool {
    match fields {
        QuickDefaultFields::DefaultNamed(n) => {
            &&& r.shape == FieldsShape::Named
            &&& !r.trailing_comma
            &&& r.fields@.len() == n.named@.len()
            &&& forall|i: int|
                0 <= i < n.named@.len() ==> emitted_field(n.named@[i], #[trigger] r.fields@[i])
        },
        QuickDefaultFields::DefaultUnnamed(u) => {
            &&& r.shape == FieldsShape::Unnamed
            &&& !r.trailing_comma
            &&& r.fields@.len() == u.unnamed@.len()
            &&& forall|i: int|
                0 <= i < u.unnamed@.len() ==> emitted_field(
                    u.unnamed@[i],
                    #[trigger] r.fields@[i],
                )
        },
        QuickDefaultFields::SynFields(f) => {
            &&& r.shape == f.shape
            &&& r.trailing_comma == f.trailing_comma
            &&& r.fields@.len() == f.fields@.len()
            &&& forall|i: int|
                0 <= i < f.fields@.len() ==> (#[trigger] r.fields@[i]).ident
                    == f.fields@[i].ident && r.fields@[i].ty == f.fields@[i].ty
                    && r.fields@[i].attrs@ == f.fields@[i].attrs@
        },
    }
}

/// The field that `q` turns back into, for the struct that is emitted.
pub open spec fn emitted_field(q: QuickDefaultField, f: FieldInfo) -> bool {
    &&& f.ident == q.ident
    &&& f.ty == q.ty
    &&& f.attrs@ == q.attrs@
}

impl QuickDefaultField {
    /// The field as it is emitted: with its remaining attributes.
    pub fn to_field(&self) -> (r: FieldInfo)
        ensures
            emitted_field(*self, r),
    {
        let ident = match &self.ident {
            Some(i) => Some(i.clone()),
            None => None,
        };
        FieldInfo { ident, ty: self.ty.clone(), attrs: clone_attrs(&self.attrs) }
    }
}

fn to_field_list(qs: &Vec<QuickDefaultField>) -> (r: Vec<FieldInfo>)
    ensures
        r@.len() == qs@.len(),
        forall|i: int| 0 <= i < qs@.len() ==> emitted_field(qs@[i], #[trigger] r@[i]),
{
    let mut r: Vec<FieldInfo> = Vec::new();
    let mut i: usize = 0;
    while i < qs.len()
        invariant
            i <= qs@.len(),
            r@.len() == i,
            forall|j: int| 0 <= j < i ==> emitted_field(qs@[j], #[trigger] r@[j]),
        decreases qs@.len() - i,
    {
        r.push(qs[i].to_field());
        i += 1;
    }
    r
}

fn clone_field_list(fields: &Vec<FieldInfo>) -> (r: Vec<FieldInfo>)
    ensures
        r@.len() == fields@.len(),
        forall|i: int|
            0 <= i < fields@.len() ==> (#[trigger] r@[i]).ident == fields@[i].ident && r@[i].ty
                == fields@[i].ty && r@[i].attrs@ == fields@[i].attrs@,
{
    let mut r: Vec<FieldInfo> = Vec::new();
    let mut i: usize = 0;
    while i < fields.len()
        invariant
            i <= fields@.len(),
            r@.len() == i,
            forall|j: int|
                0 <= j < i ==> (#[trigger] r@[j]).ident == fields@[j].ident && r@[j].ty
                    == fields@[j].ty && r@[j].attrs@ == fields@[j].attrs@,
        decreases fields@.len() - i,
    {
        r.push(fields[i].clone());
        i += 1;
    }
    r
}

impl QuickDefaultFieldsNamed {
    /// The named body that is emitted: each field with its remaining
    /// attributes, separated by commas without a trailing one.
    pub fn to_fields(&self) -> (r: FieldsInfo)
        ensures
            r.shape == FieldsShape::Named,
            !r.trailing_comma,
            r.fields@.len() == self.named@.len(),
            forall|i: int| 0 <= i < self.named@.len() ==> emitted_field(self.named@[i], #[trigger] r.fields@[i]),
    {
        FieldsInfo { shape: FieldsShape::Named, trailing_comma: false, fields: to_field_list(&self.named) }
    }
}

impl QuickDefaultFieldsUnnamed {
    /// The tuple body that is emitted: each field with its remaining
    /// attributes, separated by commas without a trailing one.
    pub fn to_fields(&self) -> (r: FieldsInfo)
        ensures
            r.shape == FieldsShape::Unnamed,
            !r.trailing_comma,
            r.fields@.len() == self.unnamed@.len(),
            forall|i: int| 0 <= i < self.unnamed@.len() ==> emitted_field(self.unnamed@[i], #[trigger] r.fields@[i]),
    {
        FieldsInfo { shape: FieldsShape::Unnamed, trailing_comma: false, fields: to_field_list(&self.unnamed) }
    }
}

impl QuickDefaultFields {
    /// Prepares a struct body: named and tuple bodies have all their fields
    /// prepared; a unit body is kept as written.
    pub fn from(value: FieldsInfo) -> (r: QuickDefaultFields)
        ensures
            prepares(value, r),
    {
        match value.shape {
            FieldsShape::Named => QuickDefaultFields::DefaultNamed(QuickDefaultFieldsNamed::from(value.fields)),
            FieldsShape::Unnamed => QuickDefaultFields::DefaultUnnamed(
                QuickDefaultFieldsUnnamed::from(value.fields),
            ),
            FieldsShape::Unit => QuickDefaultFields::SynFields(value),
        }
    }

    /// The struct body that is emitted: prepared fields carry their remaining
    /// attributes and are separated by commas without a trailing one; a body
    /// kept as written is emitted as written.
    pub fn to_fields(&self) -> (r: FieldsInfo)
        ensures
            emits(*self, r),
    {
        match self {
            QuickDefaultFields::DefaultNamed(n) => n.to_fields(),
            QuickDefaultFields::DefaultUnnamed(u) => u.to_fields(),
            QuickDefaultFields::SynFields(f) => FieldsInfo {
                shape: f.shape,
                trailing_comma: f.trailing_comma,
                fields: clone_field_list(&f.fields),
            },
        }
    }
}

/// The expression given to fields without a default of their own.
pub open spec fn default_call() -> Seq<Seq<char>> {
    seq!["::std::default::Default::default()"@]
}

/// The value a prepared field is given.
pub open spec fn value_parts(q: QuickDefaultField) -> Seq<Seq<char>> {
    match q.default_value_attr {
        Some(d) => seq![d.attr_expr@],
        None => default_call(),
    }
}

/// A prepared field in the impl's struct expression: its name and `:`
/// where it has them, then its value.
pub open spec fn field_parts(q: QuickDefaultField) -> Seq<Seq<char>> {
    (match q.ident {
        Some(i) => seq![i@],
        None => Seq::empty(),
    }) + (if q.colon_token {
        seq![":"@]
    } else {
        Seq::empty()
    }) + value_parts(q)
}

/// Prepared fields separated by commas.
pub open spec fn listed_parts(qs: Seq<QuickDefaultField>) -> Seq<Seq<char>>
    decreases qs.len(),
{
    if qs.len() == 0 {
        Seq::empty()
    } else if qs.len() == 1 {
        field_parts(qs[0])
    } else {
        listed_parts(qs.drop_last()) + seq![","@] + field_parts(qs.last())
    }
}

/// A field of a body kept as written: its name and `:` for a named field,
/// then the default call.
pub open spec fn implicit_entry(f: FieldInfo, named: bool) -> Seq<Seq<char>> {
    (if named {
        seq![f.ident->0@, ":"@]
    } else {
        Seq::empty()
    }) + default_call()
}

/// The fields of a body kept as written, each followed by a comma except
/// the last, which is followed by one when `trailing` is set.
pub open spec fn implicit_parts(fs: Seq<FieldInfo>, named: bool, trailing: bool) -> Seq<Seq<char>>
    decreases fs.len(),
{
    if fs.len() == 0 {
        Seq::empty()
    } else {
        implicit_parts(fs.drop_last(), named, true) + implicit_entry(fs.last(), named) + (if trailing {
            seq![","@]
        } else {
            Seq::empty()
        })
    }
}

/// The struct expression's body that follows the struct's name.
pub open spec fn body_parts(fields: QuickDefaultFields) -> Seq<Seq<char>> {
    match fields {
        QuickDefaultFields::DefaultNamed(n) => seq!["{"@] + listed_parts(n.named@) + seq!["}"@],
        QuickDefaultFields::DefaultUnnamed(u) => seq!["("@] + listed_parts(u.unnamed@) + seq![")"@],
        QuickDefaultFields::SynFields(f) => match f.shape {
            FieldsShape::Named => seq!["{"@] + implicit_parts(f.fields@, true, f.trailing_comma)
                + seq!["}"@],
            FieldsShape::Unnamed => seq!["("@] + implicit_parts(f.fields@, false, f.trailing_comma)
                + seq![")"@],
            FieldsShape::Unit => Seq::empty(),
        },
    }
}

/// The generics of the struct the impl is for, as texts: the `impl`'s
/// parameters, the type's arguments, the `where` predicates and the names
/// of the type parameters.
pub struct GenericsText {
    pub impl_generics: String,
    pub type_generics: String,
    pub where_predicates: Vec<String>,
    pub type_params: Vec<String>,
}

/// Generics as texts.
pub struct GenericsView {
    pub impl_generics: Seq<char>,
    pub type_generics: Seq<char>,
    pub where_predicates: Seq<Seq<char>>,
    pub type_params: Seq<Seq<char>>,
}

/// The generics of a struct definition, as texts.
pub open spec fn generics_of(item: syn::ItemStruct) -> GenericsView {
    GenericsView {
        impl_generics: generics_split(item).0,
        type_generics: generics_split(item).1,
        where_predicates: generics_split(item).2,
        type_params: type_params(item),
    }
}

impl GenericsText {
    /// No generics.
    pub fn none() -> (r: GenericsText)
        ensures
            r@ == (GenericsView {
                impl_generics: Seq::empty(),
                type_generics: Seq::empty(),
                where_predicates: Seq::empty(),
                type_params: Seq::empty(),
            }),
    {
        let r = GenericsText {
            impl_generics: String::new(),
            type_generics: String::new(),
            where_predicates: Vec::new(),
            type_params: Vec::new(),
        };
        assert(texts(r.where_predicates@) =~= Seq::<Seq<char>>::empty());
        assert(texts(r.type_params@) =~= Seq::<Seq<char>>::empty());
        r
    }

    /// The generics of a struct definition (`syn::Generics::split_for_impl`
    /// and `syn::Generics::type_params`).
    pub fn of(item: &syn::ItemStruct) -> (r: GenericsText)
        ensures
            r@ == generics_of(*item),
    {
        let (impl_generics, type_generics, where_predicates) = struct_generics(item);
        let type_params = struct_type_params(item);
        GenericsText { impl_generics, type_generics, where_predicates, type_params }
    }
}

impl View for GenericsText {
    type V = GenericsView;

    open spec fn view(&self) -> GenericsView {
        GenericsView {
            impl_generics: self.impl_generics@,
            type_generics: self.type_generics@,
            where_predicates: texts(self.where_predicates@),
            type_params: texts(self.type_params@),
        }
    }
}

/// The bound each type parameter gets in the impl, so that its fields can
/// be given their default.
pub open spec fn default_bound(param: Seq<char>) -> Seq<char> {
    param + " : ::std::default::Default"@
}

/// The predicates of the impl's `where` clause: the struct's own, then a
/// `Default` bound for each type parameter.
pub open spec fn impl_predicates(g: GenericsView) -> Seq<Seq<char>> {
    g.where_predicates + g.type_params.map_values(|p: Seq<char>| default_bound(p))
}

/// Texts separated by commas.
pub open spec fn comma_list(items: Seq<Seq<char>>) -> Seq<Seq<char>>
    decreases items.len(),
{
    if items.len() == 0 {
        Seq::empty()
    } else if items.len() == 1 {
        seq![items[0]]
    } else {
        comma_list(items.drop_last()) + seq![","@, items.last()]
    }
}

/// The impl's `where` clause; nothing when it has no predicate.
pub open spec fn where_parts(g: GenericsView) -> Seq<Seq<char>> {
    if impl_predicates(g).len() == 0 {
        Seq::empty()
    } else {
        seq!["where"@] + comma_list(impl_predicates(g))
    }
}

fn write_where(g: &GenericsText, tokens: &mut TokenText)
    ensures
        final(tokens)@ == old(tokens)@ + where_parts(g@),
{
    let ghost start = tokens@;
    let ghost preds = impl_predicates(g@);
    let mut all: Vec<String> = Vec::new();
    let mut i: usize = 0;
    while i < g.where_predicates.len()
        invariant
            i <= g.where_predicates@.len(),
            texts(all@) == texts(g.where_predicates@).take(i as int),
            preds == impl_predicates(g@),
        decreases g.where_predicates@.len() - i,
    {
        let ghost before = all@;
        let p = g.where_predicates[i].clone();
        all.push(p);
        assert(all@ == before.push(p));
        assert(texts(before.push(p)) =~= texts(before).push(p@));
        assert(texts(g.where_predicates@).take(i + 1) =~= texts(g.where_predicates@).take(i as int).push(
            g.where_predicates@[i as int]@,
        ));
        assert(texts(all@) =~= texts(g.where_predicates@).take(i + 1));
        i += 1;
    }
    assert(texts(g.where_predicates@).take(g.where_predicates@.len() as int) =~= preds.take(
        g.where_predicates@.len() as int,
    ));
    let mut j: usize = 0;
    while j < g.type_params.len()
        invariant
            j <= g.type_params@.len(),
            texts(all@) == preds.take(g.where_predicates@.len() + j),
            preds.len() == g.where_predicates@.len() + g.type_params@.len(),
            preds == impl_predicates(g@),
        decreases g.type_params@.len() - j,
    {
        let ghost before = all@;
        let b = g.type_params[j].clone().concat(" : ::std::default::Default");
        all.push(b);
        assert(all@ == before.push(b));
        assert(preds[g.where_predicates@.len() + j] == default_bound(g.type_params@[j as int]@));
        assert(texts(before.push(b)) =~= texts(before).push(b@));
        assert(preds.take(g.where_predicates@.len() + j + 1) =~= preds.take(
            g.where_predicates@.len() + j,
        ).push(preds[g.where_predicates@.len() + j]));
        assert(texts(all@) =~= preds.take(g.where_predicates@.len() + j + 1));
        j += 1;
    }
    assert(preds.take(preds.len() as int) =~= preds);
    if all.len() == 0 {
        assert(tokens@ =~= start + where_parts(g@));
        return;
    }
    tokens.push("where");
    let mut k: usize = 0;
    while k < all.len()
        invariant
            0 < all@.len(),
            k <= all@.len(),
            texts(all@) == preds,
            tokens@ == start + seq!["where"@] + comma_list(preds.take(k as int)),
        decreases all@.len() - k,
    {
        let ghost prefix = preds.take(k + 1);
        assert(prefix.drop_last() =~= preds.take(k as int));
        assert(prefix.last() == all@[k as int]@);
        if k > 0 {
            tokens.push(",");
        }
        tokens.push_string(all[k].clone());
        proof {
            if k == 0 {
                assert(prefix =~= seq![all@[0]@]);
            }
        }
        assert(tokens@ =~= start + seq!["where"@] + comma_list(prefix));
        k += 1;
    }
    assert(preds.take(all@.len() as int) =~= preds);
}

/// A text as one part, or nothing when it is empty.
pub open spec fn opt_part(text: Seq<char>) -> Seq<Seq<char>> {
    if text.len() == 0 {
        Seq::empty()
    } else {
        seq![text]
    }
}

fn push_opt(text: &String, tokens: &mut TokenText)
    ensures
        final(tokens)@ == old(tokens)@ + opt_part(text@),
{
    if !text.as_str().is_empty() {
        tokens.push_string(text.clone());
        assert(tokens@ =~= old(tokens)@ + opt_part(text@));
    } else {
        assert(tokens@ =~= old(tokens)@ + opt_part(text@));
    }
}

/// `impl<..> Default for Name<..> where .. { fn default() -> Self { Name`.
pub open spec fn head_parts(ident: Seq<char>, generics: GenericsView) -> Seq<Seq<char>> {
    seq!["impl"@] + opt_part(generics.impl_generics) + seq!["Default"@, "for"@, ident] + opt_part(
        generics.type_generics,
    ) + where_parts(generics) + seq![
        "{"@,
        "fn"@,
        "default"@,
        "("@,
        ")"@,
        "->"@,
        "Self"@,
        "{"@,
        ident,
    ]
}

/// `impl<..> Default for Name<..> where .. { fn default() -> Self { Name body } }`.
pub open spec fn impl_parts(
    ident: Seq<char>,
    generics: GenericsView,
    fields: QuickDefaultFields,
) -> Seq<Seq<char>> {
    head_parts(ident, generics) + body_parts(fields) + seq!["}"@, "}"@]
}

fn write_head(ident: &String, generics: &GenericsText, tokens: &mut TokenText)
    ensures
        final(tokens)@ == old(tokens)@ + head_parts(ident@, generics@),
{
    let ghost start = tokens@;
    tokens.push("impl");
    push_opt(&generics.impl_generics, tokens);
    tokens.push("Default");
    tokens.push("for");
    tokens.push_string(ident.clone());
    push_opt(&generics.type_generics, tokens);
    write_where(generics, tokens);
    tokens.push("{");
    tokens.push("fn");
    tokens.push("default");
    tokens.push("(");
    tokens.push(")");
    tokens.push("->");
    tokens.push("Self");
    tokens.push("{");
    tokens.push_string(ident.clone());
    assert(tokens@ =~= start + head_parts(ident@, generics@));
}

impl QuickDefaultFields {
    /// A body kept as written holds positions for its attributes, and its
    /// named fields carry a name (the struct expression names each one).
    pub open spec fn wf(self) -> bool {
        match self {
            QuickDefaultFields::SynFields(f) => f.wf() && (f.shape == FieldsShape::Named ==> forall|i: int|
                0 <= i < f.fields@.len() ==> (#[trigger] f.fields@[i]).ident is Some),
            _ => true,
        }
    }
}

impl QuickDefaultField {
    /// Writes the field's entry of the impl's struct expression.
    pub fn to_tokens(&self, tokens: &mut TokenText)
        ensures
            final(tokens)@ == old(tokens)@ + field_parts(*self),
    {
        let ghost start = tokens@;
        match &self.ident {
            Some(i) => tokens.push_string(i.clone()),
            None => {},
        }
        if self.colon_token {
            tokens.push(":");
        }
        match &self.default_value_attr {
            Some(d) => tokens.push_string(d.attr_expr.clone()),
            None => tokens.push("::std::default::Default::default()"),
        }
        assert(tokens@ =~= start + field_parts(*self));
    }
}

fn write_listed(qs: &Vec<QuickDefaultField>, tokens: &mut TokenText)
    ensures
        final(tokens)@ == old(tokens)@ + listed_parts(qs@),
{
    let ghost start = tokens@;
    let mut i: usize = 0;
    assert(listed_parts(qs@.take(0)) =~= Seq::<Seq<char>>::empty());
    assert(tokens@ =~= start + listed_parts(qs@.take(0)));
    while i < qs.len()
        invariant
            i <= qs@.len(),
            tokens@ == start + listed_parts(qs@.take(i as int)),
        decreases qs@.len() - i,
    {
        let ghost prefix = qs@.take(i + 1);
        assert(prefix.drop_last() =~= qs@.take(i as int));
        assert(prefix.last() == qs@[i as int]);
        if i > 0 {
            tokens.push(",");
        }
        qs[i].to_tokens(tokens);
        proof {
            if i == 0 {
                assert(prefix.len() == 1);
                assert(prefix[0] == qs@[0]);
            }
        }
        assert(tokens@ =~= start + listed_parts(prefix));
        i += 1;
    }
    assert(qs@.take(qs@.len() as int) =~= qs@);
}

fn write_implicit(fs: &Vec<FieldInfo>, named: bool, trailing: bool, tokens: &mut TokenText)
    requires
        named ==> forall|i: int| 0 <= i < fs@.len() ==> (#[trigger] fs@[i]).ident is Some,
    ensures
        final(tokens)@ == old(tokens)@ + implicit_parts(fs@, named, trailing),
{
    let ghost start = tokens@;
    let n = fs.len();
    if n == 0 {
        assert(tokens@ =~= start + implicit_parts(fs@, named, trailing));
        return;
    }
    let mut i: usize = 0;
    assert(tokens@ =~= start + implicit_parts(fs@.take(0), named, true));
    while i < n
        invariant
            n == fs@.len(),
            n > 0,
            i <= n,
            named ==> forall|k: int| 0 <= k < fs@.len() ==> (#[trigger] fs@[k]).ident is Some,
            i < n ==> tokens@ == start + implicit_parts(fs@.take(i as int), named, true),
            i == n ==> tokens@ == start + implicit_parts(fs@, named, trailing),
        decreases n - i,
    {
        let ghost prefix = fs@.take(i + 1);
        assert(prefix.drop_last() =~= fs@.take(i as int));
        assert(prefix.last() == fs@[i as int]);
        let ghost before = tokens@;
        if named {
            match &fs[i].ident {
                Some(name) => tokens.push_string(name.clone()),
                None => {},
            }
            tokens.push(":");
        }
        tokens.push("::std::default::Default::default()");
        assert(tokens@ =~= before + implicit_entry(fs@[i as int], named));
        if i + 1 < n || trailing {
            tokens.push(",");
        }
        proof {
            if i + 1 < n {
                assert(tokens@ =~= start + implicit_parts(prefix, named, true));
            } else {
                assert(prefix =~= fs@);
                assert(tokens@ =~= start + implicit_parts(fs@, named, trailing));
            }
        }
        i += 1;
    }
}

/// Writes the whole `Default` impl for a struct with the given name and
/// prepared body.
pub fn write_default_impl(
    ident: &String,
    generics: &GenericsText,
    fields: &QuickDefaultFields,
    tokens: &mut TokenText,
)
    requires
        fields.wf(),
    ensures
        final(tokens)@ == old(tokens)@ + impl_parts(ident@, generics@, *fields),
{
    let ghost start = tokens@;
    write_head(ident, generics, tokens);
    let ghost head = tokens@;
    match fields {
        QuickDefaultFields::DefaultNamed(n) => {
            tokens.push("{");
            write_listed(&n.named, tokens);
            tokens.push("}");
        },
        QuickDefaultFields::DefaultUnnamed(u) => {
            tokens.push("(");
            write_listed(&u.unnamed, tokens);
            tokens.push(")");
        },
        QuickDefaultFields::SynFields(f) => match f.shape {
            FieldsShape::Named => {
                tokens.push("{");
                write_implicit(&f.fields, true, f.trailing_comma, tokens);
                tokens.push("}");
            },
            FieldsShape::Unnamed => {
                tokens.push("(");
                write_implicit(&f.fields, false, f.trailing_comma, tokens);
                tokens.push(")");
            },
            FieldsShape::Unit => {},
        },
    }
    assert(tokens@ =~= head + body_parts(*fields));
    tokens.push("}");
    tokens.push("}");
    assert(tokens@ =~= start + impl_parts(ident@, generics@, *fields));
}

/// `value` prepared is `r` (the contract of [`QuickDefaultFields::from`]).
pub open spec fn prepares(value: FieldsInfo, r: QuickDefaultFields) -> bool {
    match value.shape {
        FieldsShape::Named => r matches QuickDefaultFields::DefaultNamed(n) && all_convert(value.fields@, n.named@),
        FieldsShape::Unnamed => r matches QuickDefaultFields::DefaultUnnamed(u) && all_convert(
            value.fields@,
            u.unnamed@,
        ),
        FieldsShape::Unit => r == QuickDefaultFields::SynFields(value),
    }
}

/// The `Default` impl to generate: the struct's name and prepared body.
pub struct QuickDefaultImplementation {
    pub implementor_ident: String,
    pub implementor_generics: GenericsText,
    pub implementor_fields: QuickDefaultFields,
}

impl QuickDefaultImplementation {
    /// The impl for a prepared struct.
    pub fn from(value: QuickDefaultStruct) -> (r: QuickDefaultImplementation)
        ensures
            r.implementor_ident == value.ident,
            r.implementor_generics@ == generics_of(value.item),
            r.implementor_fields == value.fields,
    {
        let implementor_generics = GenericsText::of(&value.item);
        let QuickDefaultStruct { item: _, ident, fields } = value;
        QuickDefaultImplementation { implementor_ident: ident, implementor_generics, implementor_fields: fields }
    }

    /// The impl's token texts.
    pub fn to_text(&self) -> (r: TokenText)
        requires
            self.implementor_fields.wf(),
        ensures
            r@ == impl_parts(self.implementor_ident@, self.implementor_generics@, self.implementor_fields),
    {
        let mut tokens = TokenText::new();
        write_default_impl(&self.implementor_ident, &self.implementor_generics, &self.implementor_fields, &mut tokens);
        tokens
    }

    /// The impl's tokens: its text lexed by `proc-macro2`.
    pub fn to_tokens(&self) -> (r: proc_macro2::TokenStream)
        requires
            self.implementor_fields.wf(),
        ensures
            stream_trees(r) == generated_trees(impl_parts(self.implementor_ident@, self.implementor_generics@, self.implementor_fields)),
    {
        let mut tokens = empty_tokens();
        self.to_text().append_to(&mut tokens);
        assert(stream_trees(tokens) =~= generated_trees(
            impl_parts(self.implementor_ident@, self.implementor_generics@, self.implementor_fields),
        ));
        tokens
    }
}

/// A struct under `quick_default`: the parsed definition, its name and its
/// prepared body.
pub struct QuickDefaultStruct {
    /// The definition as parsed; its attributes, visibility, generics and
    /// the fields' visibilities and types are emitted from here.
    pub item: syn::ItemStruct,
    pub ident: String,
    pub fields: QuickDefaultFields,
}

/// `s` holds a parsed struct together with that struct's name and its body
/// prepared.
pub open spec fn prepared_from(s: QuickDefaultStruct) -> bool {
    exists|info: StructInfo|
        #[trigger] reads(s.item, info) && info.fields.wf() && s.ident == info.ident && prepares(
            info.fields,
            s.fields,
        )
}

/// The trees of a field's attributes without those of its
/// `#[default(...)]` attributes (the meta items tell which they are).
pub open spec fn kept_trees(metas: Seq<AttrMetaView>, trees: Seq<Seq<TreeView>>) -> Seq<Seq<TreeView>>
    decreases trees.len(),
{
    if trees.len() == 0 || metas.len() == 0 {
        Seq::empty()
    } else if is_default_meta(metas.last()) {
        kept_trees(metas.drop_last(), trees.drop_last())
    } else {
        kept_trees(metas.drop_last(), trees.drop_last()).push(trees.last())
    }
}

/// The trees of the emitted fields: as parsed when the body is kept as
/// written, otherwise each field without its `#[default(...)]` attributes.
pub open spec fn emitted_trees(fields: Seq<FieldView>, trees: Seq<FieldTrees>, kept_as_written: bool) -> Seq<FieldTrees> {
    if kept_as_written {
        trees
    } else {
        Seq::new(
            trees.len(),
            |i: int| FieldTrees { attrs: kept_trees(fields[i].attrs, trees[i].attrs), rest: trees[i].rest },
        )
    }
}

/// The definition emitted for the struct `v`: the same definition but for
/// its body, where a prepared body loses its `#[default(...)]` attributes
/// and its trailing comma (see [`QuickDefaultStruct::into_item`]).
pub open spec fn emitted(v: StructView, kept_as_written: bool) -> StructView {
    StructView {
        trailing: kept_as_written && v.trailing,
        fields: emitted_fields(v.fields, kept_as_written),
        field_trees: emitted_trees(v.fields, v.field_trees, kept_as_written),
        ..v
    }
}

/// `out` is what `quick_default` emits for the prepared struct `s`: the
/// emitted definition, then its `Default` impl.
pub open spec fn default_output(s: QuickDefaultStruct, out: Seq<TreeView>) -> bool {
    out == printed_view(emitted(struct_view(s.item), s.fields is SynFields)) + generated_trees(
        impl_parts(struct_name(s.item), generics_of(s.item), s.fields),
    )
}

/// `out` is the expansion of `quick_default` on `input`: the output for the
/// struct `syn` parses from `input`, prepared, or the compile error of
/// `syn`'s refusal.
pub open spec fn default_expansion(input: proc_macro2::TokenStream, out: Seq<TreeView>) -> bool {
    match struct_parse(input) {
        Ok(v) => exists|s: QuickDefaultStruct| #[trigger] prepared_view(v, s) && default_output(s, out),
        Err(t) => out == t,
    }
}

/// `s` is the struct `v` prepared: it holds that definition, its name and
/// its body prepared (see [`QuickDefaultFields::from`]).
pub open spec fn prepared_view(v: StructView, s: QuickDefaultStruct) -> bool {
    struct_view(s.item) == v && prepared_from(s)
}

/// The attribute meta item is `#[default(...)]`.
pub open spec fn is_default_meta(m: AttrMetaView) -> bool {
    m matches AttrMetaView::List { ident: Some(name), .. } && is_default_name(name)
}

/// A field's attribute meta items without the `#[default(...)]` ones.
pub open spec fn stripped(attrs: Seq<AttrMetaView>) -> Seq<AttrMetaView> {
    attrs.filter(|m: AttrMetaView| !is_default_meta(m))
}

/// The fields of the struct that is emitted: as parsed when the body is kept
/// as written, otherwise each field without its `#[default(...)]` attributes.
pub open spec fn emitted_fields(parsed: Seq<FieldView>, kept_as_written: bool) -> Seq<FieldView> {
    if kept_as_written {
        parsed
    } else {
        parsed.map_values(|f: FieldView| FieldView { attrs: stripped(f.attrs), ..f })
    }
}

/// Placing a field's kept attributes by their positions gives the field's
/// attribute meta items without the `#[default(...)]` ones.
proof fn lemma_placed_kept(attrs: Seq<AttrInfo>)
    requires
        forall|j: int| 0 <= j < attrs.len() ==> (#[trigger] attrs[j]).position == j,
    ensures
        forall|k: int|
            0 <= k < kept_attrs(attrs).len() ==> (#[trigger] kept_attrs(attrs)[k]).position
                < attrs.len(),
        placed_attrs(metas(attrs), kept_attrs(attrs)) == stripped(metas(attrs)),
    decreases attrs.len(),
{
    reveal(Seq::filter);
    if attrs.len() > 0 {
        let p = attrs.drop_last();
        let x = attrs.last();
        lemma_placed_kept(p);
        assert(metas(attrs).drop_last() =~= metas(p));
        assert(metas(attrs).last() == x.meta@);
        assert(is_default_meta(x.meta@) == is_default_attr(x));
        let kp = kept_attrs(p);
        assert(placed_attrs(metas(attrs), kp) =~= placed_attrs(metas(p), kp)) by {
            assert forall|k: int| 0 <= k < kp.len() implies metas(attrs)[kp[k].position as int]
                == metas(p)[kp[k].position as int] by {
                assert(kp[k].position < p.len());
            }
        }
        if !is_default_attr(x) {
            assert(kept_attrs(attrs) == kp.push(x));
            assert(x.position == attrs.len() - 1);
            assert(placed_attrs(metas(attrs), kp.push(x)) =~= placed_attrs(metas(attrs), kp).push(
                metas(attrs)[x.position as int],
            ));
        }
    }
}

/// Placing all of a field's attributes by their positions gives them back.
proof fn lemma_placed_all(attrs: Seq<AttrInfo>)
    requires
        forall|j: int| 0 <= j < attrs.len() ==> (#[trigger] attrs[j]).position == j,
    ensures
        placed_attrs(metas(attrs), attrs) == metas(attrs),
{
    assert(placed_attrs(metas(attrs), attrs) =~= metas(attrs));
}

/// The trees at the positions `plan` names.
pub open spec fn placed_trees(source: Seq<Seq<TreeView>>, plan: Seq<AttrInfo>) -> Seq<Seq<TreeView>> {
    plan.map_values(|a: AttrInfo| source[a.position as int])
}

/// Placing the trees of a field's kept attributes by their positions gives
/// its attribute trees without those of the `#[default(...)]` ones.
pub(crate) proof fn lemma_placed_kept_trees(attrs: Seq<AttrInfo>, trees: Seq<Seq<TreeView>>)
    requires
        forall|j: int| 0 <= j < attrs.len() ==> (#[trigger] attrs[j]).position == j,
        trees.len() == attrs.len(),
    ensures
        placed_trees(trees, kept_attrs(attrs)) == kept_trees(metas(attrs), trees),
    decreases attrs.len(),
{
    if attrs.len() > 0 {
        let p = attrs.drop_last();
        let x = attrs.last();
        lemma_placed_kept_trees(p, trees.drop_last());
        lemma_placed_kept(p);
        assert(metas(attrs).drop_last() =~= metas(p));
        assert(metas(attrs).last() == x.meta@);
        assert(is_default_meta(x.meta@) == is_default_attr(x));
        let kp = kept_attrs(p);
        assert(placed_trees(trees, kp) =~= placed_trees(trees.drop_last(), kp)) by {
            assert forall|k: int| 0 <= k < kp.len() implies trees[kp[k].position as int]
                == trees.drop_last()[kp[k].position as int] by {
                assert(kp[k].position < p.len());
            }
        }
        if !is_default_attr(x) {
            assert(kept_attrs(attrs) == kp.push(x));
            assert(x.position == attrs.len() - 1);
            assert(placed_trees(trees, kp.push(x)) =~= placed_trees(trees, kp).push(trees.last()));
        }
    } else {
        assert(placed_trees(trees, kept_attrs(attrs)) =~= kept_trees(metas(attrs), trees));
    }
}

/// Placing all of a field's attribute trees by their positions gives them
/// back.
proof fn lemma_placed_all_trees(attrs: Seq<AttrInfo>, trees: Seq<Seq<TreeView>>)
    requires
        forall|j: int| 0 <= j < attrs.len() ==> (#[trigger] attrs[j]).position == j,
        trees.len() == attrs.len(),
    ensures
        placed_trees(trees, attrs) == trees,
{
    assert(placed_trees(trees, attrs) =~= trees);
}

/// The plan emitted for a prepared struct fits the parsed struct and places
/// the attributes of the emitted fields.
proof fn lemma_plan_of_prepared(s: QuickDefaultStruct, plan: FieldsInfo)
    requires
        prepared_from(s),
        emits(s.fields, plan),
    ensures
        plan_fits(struct_fields(s.item), plan),
        plan.trailing_comma == (s.fields is SynFields && struct_trailing(s.item)),
        forall|i: int|
            0 <= i < struct_fields(s.item).len() ==> placed_attrs(
                struct_fields(s.item)[i].attrs,
                #[trigger] plan.fields@[i].attrs@,
            ) == emitted_fields(struct_fields(s.item), s.fields is SynFields)[i].attrs,
        trees_aligned(struct_view(s.item)),
        forall|i: int|
            0 <= i < struct_fields(s.item).len() ==> placed_trees(
                struct_field_trees(s.item)[i].attrs,
                #[trigger] plan.fields@[i].attrs@,
            ) == emitted_trees(struct_fields(s.item), struct_field_trees(s.item), s.fields is SynFields)[i].attrs,
        s.fields.wf(),
{
    let info = choose|info: StructInfo|
        #[trigger] reads(s.item, info) && info.fields.wf() && s.ident == info.ident && prepares(
            info.fields,
            s.fields,
        );
    let parsed = struct_fields(s.item);
    let fs = info.fields.fields@;
    assert(field_views(fs) == parsed);
    assert forall|i: int| 0 <= i < fs.len() implies metas(#[trigger] fs[i].attrs@) == parsed[i].attrs
        && forall|j: int| 0 <= j < fs[i].attrs@.len() ==> (#[trigger] fs[i].attrs@[j]).position == j by {
        assert(field_views(fs)[i] == fs[i]@);
        assert(fs[i].wf());
    }
    assert(plan.fields@.len() == parsed.len());
    assert forall|i: int| 0 <= i < parsed.len() implies placed_attrs(
        parsed[i].attrs,
        #[trigger] plan.fields@[i].attrs@,
    ) == emitted_fields(parsed, s.fields is SynFields)[i].attrs && forall|j: int|
        0 <= j < plan.fields@[i].attrs@.len() ==> (#[trigger] plan.fields@[i].attrs@[j]).position
            < parsed[i].attrs.len() by {
        assert(metas(fs[i].attrs@) == parsed[i].attrs);
        match s.fields {
            QuickDefaultFields::SynFields(f) => {
                assert(f == info.fields);
                assert(plan.fields@[i].attrs@ == fs[i].attrs@);
                lemma_placed_all(fs[i].attrs@);
            },
            QuickDefaultFields::DefaultNamed(n) => {
                assert(converts_to(fs[i], n.named@[i]));
                assert(plan.fields@[i].attrs@ == kept_attrs(fs[i].attrs@));
                lemma_placed_kept(fs[i].attrs@);
            },
            QuickDefaultFields::DefaultUnnamed(u) => {
                assert(converts_to(fs[i], u.unnamed@[i]));
                assert(plan.fields@[i].attrs@ == kept_attrs(fs[i].attrs@));
                lemma_placed_kept(fs[i].attrs@);
            },
        }
    }
    let trees = struct_field_trees(s.item);
    assert forall|i: int| 0 <= i < parsed.len() implies placed_trees(
        trees[i].attrs,
        #[trigger] plan.fields@[i].attrs@,
    ) == emitted_trees(parsed, trees, s.fields is SynFields)[i].attrs by {
        assert(metas(fs[i].attrs@) == parsed[i].attrs);
        assert(trees[i].attrs.len() == parsed[i].attrs.len());
        match s.fields {
            QuickDefaultFields::SynFields(f) => {
                assert(f == info.fields);
                assert(plan.fields@[i].attrs@ == fs[i].attrs@);
                lemma_placed_all_trees(fs[i].attrs@, trees[i].attrs);
            },
            QuickDefaultFields::DefaultNamed(n) => {
                assert(converts_to(fs[i], n.named@[i]));
                assert(plan.fields@[i].attrs@ == kept_attrs(fs[i].attrs@));
                lemma_placed_kept_trees(fs[i].attrs@, trees[i].attrs);
            },
            QuickDefaultFields::DefaultUnnamed(u) => {
                assert(converts_to(fs[i], u.unnamed@[i]));
                assert(plan.fields@[i].attrs@ == kept_attrs(fs[i].attrs@));
                lemma_placed_kept_trees(fs[i].attrs@, trees[i].attrs);
            },
        }
    }
}

impl QuickDefaultStruct {
    /// Prepares a struct from its definition and the model read from it.
    pub fn from_parts(item: syn::ItemStruct, info: StructInfo) -> (r: QuickDefaultStruct)
        requires
            reads(item, info),
            info.fields.wf(),
        ensures
            r.item == item,
            r.ident == info.ident,
            prepares(info.fields, r.fields),
            r.fields.wf(),
            prepared_from(r),
    {
        let ghost model = info;
        let StructInfo { ident, fields } = info;
        let r = QuickDefaultStruct { item, ident, fields: QuickDefaultFields::from(fields) };
        assert(reads(r.item, model));
        r
    }

    /// Prepares a struct definition: its name and its body prepared (see
    /// [`QuickDefaultFields::from`]). The definition is kept for emitting.
    pub fn from(value: syn::ItemStruct) -> (r: QuickDefaultStruct)
        ensures
            r.item == value,
            prepared_from(r),
            r.fields.wf(),
    {
        let info = read_struct(&value);
        QuickDefaultStruct::from_parts(value, info)
    }

    /// Parses the whole stream as one struct definition (as `syn::parse2`
    /// does, which is how `quick_default2` reads its input) and prepares it;
    /// a parse error, including tokens left after the struct, is `syn`'s.
    pub fn parse(input: proc_macro2::TokenStream) -> (r: Result<QuickDefaultStruct, syn::Error>)
        ensures
            match struct_parse(input) {
                Ok(v) => r matches Ok(s) && prepared_view(v, s) && s.fields.wf(),
                Err(t) => r matches Err(e) && error_trees(e) == t,
            },
    {
        match parse_item_struct(input) {
            Ok(item) => Ok(QuickDefaultStruct::from(item)),
            Err(e) => Err(e),
        }
    }

    /// The definition that is emitted: the parsed one, where a prepared body
    /// loses its `#[default(...)]` attributes and its trailing comma; a body
    /// kept as written is unchanged. Name, shape, field names and types stay.
    pub fn into_item(self) -> (r: syn::ItemStruct)
        requires
            prepared_from(self),
        ensures
            struct_view(r) == emitted(struct_view(self.item), self.fields is SynFields),
    {
        let plan = self.fields.to_fields();
        proof {
            lemma_plan_of_prepared(self, plan);
        }
        let ghost parsed = self.item;
        let ghost kept_as_written = self.fields is SynFields;
        let mut item = self.item;
        apply_fields(&mut item, &plan);
        proof {
            lemma_applied_is_emitted(parsed, kept_as_written, plan, item);
        }
        item
    }

    /// The `Default` impl's token texts, for the parsed struct's name and
    /// prepared body.
    pub fn impl_text(&self) -> (r: TokenText)
        requires
            prepared_from(*self),
        ensures
            r@ == impl_parts(struct_name(self.item), generics_of(self.item), self.fields),
    {
        proof {
            let info = choose|info: StructInfo|
                #[trigger] reads(self.item, info) && info.fields.wf() && self.ident == info.ident
                    && prepares(info.fields, self.fields);
            assert(self.fields.wf());
        }
        let generics = GenericsText::of(&self.item);
        let mut text = TokenText::new();
        write_default_impl(&self.ident, &generics, &self.fields, &mut text);
        text
    }

    /// The emitted definition (see [`QuickDefaultStruct::into_item`])
    /// followed by its `Default` impl (see [`QuickDefaultStruct::impl_text`]).
    pub fn to_tokens(&self) -> (r: proc_macro2::TokenStream)
        requires
            prepared_from(*self),
        ensures
            default_output(*self, stream_trees(r)),
    {
        let plan = self.fields.to_fields();
        proof {
            lemma_plan_of_prepared(*self, plan);
        }
        let mut item = clone_struct(&self.item);
        apply_fields(&mut item, &plan);
        proof {
            lemma_applied_is_emitted(self.item, self.fields is SynFields, plan, item);
        }
        let mut tokens = struct_tokens(&item);
        let text = self.impl_text();
        text.append_to(&mut tokens);
        tokens
    }
}

/// The meta items of the attributes at the positions `plan` names.
pub open spec fn placed_attrs(source: Seq<AttrMetaView>, plan: Seq<AttrInfo>) -> Seq<AttrMetaView> {
    plan.map_values(|a: AttrInfo| source[a.position as int])
}

/// Every position `plan` names for a field is one of the field's attributes.
pub open spec fn plan_fits(fields: Seq<FieldView>, plan: FieldsInfo) -> bool {
    &&& plan.fields@.len() == fields.len()
    &&& forall|i: int, j: int|
        0 <= i < fields.len() && 0 <= j < plan.fields@[i].attrs@.len() ==> (
        #[trigger] plan.fields@[i].attrs@[j]).position < fields[i].attrs.len()
}

/// The definition `v` with the fields before `upto` given the attributes
/// that `plan` keeps for them (by their positions in the source).
pub open spec fn applied(v: StructView, plan: FieldsInfo, upto: int) -> StructView {
    StructView {
        fields: Seq::new(
            v.fields.len(),
            |k: int|
                if k < upto {
                    FieldView { attrs: placed_attrs(v.fields[k].attrs, plan.fields@[k].attrs@), ..v.fields[k] }
                } else {
                    v.fields[k]
                },
        ),
        field_trees: Seq::new(
            v.field_trees.len(),
            |k: int|
                if k < upto {
                    FieldTrees { attrs: placed_trees(v.field_trees[k].attrs, plan.fields@[k].attrs@), ..v.field_trees[k] }
                } else {
                    v.field_trees[k]
                },
        ),
        ..v
    }
}

/// The plan of a prepared struct, applied to its definition, gives the
/// emitted definition.
proof fn lemma_applied_is_emitted(parsed: syn::ItemStruct, kept_as_written: bool, plan: FieldsInfo, item: syn::ItemStruct)
    requires
        plan_fits(struct_fields(parsed), plan),
        trees_aligned(struct_view(parsed)),
        plan.trailing_comma == (kept_as_written && struct_trailing(parsed)),
        forall|i: int|
            0 <= i < struct_fields(parsed).len() ==> placed_attrs(
                struct_fields(parsed)[i].attrs,
                #[trigger] plan.fields@[i].attrs@,
            ) == emitted_fields(struct_fields(parsed), kept_as_written)[i].attrs,
        forall|i: int|
            0 <= i < struct_fields(parsed).len() ==> placed_trees(
                struct_field_trees(parsed)[i].attrs,
                #[trigger] plan.fields@[i].attrs@,
            ) == emitted_trees(struct_fields(parsed), struct_field_trees(parsed), kept_as_written)[i].attrs,
        struct_view(item) == (StructView {
            trailing: struct_trailing(parsed) && plan.trailing_comma,
            ..applied(struct_view(parsed), plan, plan.fields@.len() as int)
        }),
    ensures
        struct_view(item) == emitted(struct_view(parsed), kept_as_written),
{
    let v = struct_view(parsed);
    let a = applied(v, plan, plan.fields@.len() as int);
    let e = emitted(v, kept_as_written);
    assert(a.fields =~= e.fields) by {
        assert forall|k: int| 0 <= k < v.fields.len() implies a.fields[k] == e.fields[k] by {
            assert(plan.fields@[k].attrs@ == plan.fields@[k].attrs@);
        }
    }
    assert(a.field_trees =~= e.field_trees) by {
        assert forall|k: int| 0 <= k < v.field_trees.len() implies a.field_trees[k] == e.field_trees[k] by {
            assert(plan.fields@[k].attrs@ == plan.fields@[k].attrs@);
        }
    }
}

/// Gives each field of the parsed definition the attributes that `plan`
/// keeps for it (by their positions in the source), and drops a trailing
/// comma that `plan` does not have. Nothing else of the definition changes.
fn apply_fields(item: &mut syn::ItemStruct, plan: &FieldsInfo)
    requires
        plan_fits(struct_fields(*old(item)), *plan),
        trees_aligned(struct_view(*old(item))),
    ensures
        struct_view(*final(item)) == (StructView {
            trailing: struct_trailing(*old(item)) && plan.trailing_comma,
            ..applied(struct_view(*old(item)), *plan, plan.fields@.len() as int)
        }),
{
    let ghost start = struct_view(*item);
    let ghost source = struct_fields(*item);
    let ghost source_trees = struct_field_trees(*item);
    let mut i: usize = 0;
    assert(struct_view(*item) == applied(start, *plan, 0)) by {
        assert(applied(start, *plan, 0).fields =~= start.fields);
        assert(applied(start, *plan, 0).field_trees =~= start.field_trees);
    }
    while i < plan.fields.len()
        invariant
            i <= plan.fields@.len(),
            plan_fits(source, *plan),
            start == struct_view(*old(item)),
            source == start.fields,
            source_trees == start.field_trees,
            trees_aligned(start),
            struct_view(*item) == applied(start, *plan, i as int),
        decreases plan.fields@.len() - i,
    {
        let kept = &plan.fields[i].attrs;
        let ghost wanted = placed_attrs(source[i as int].attrs, kept@);
        let ghost wanted_trees = placed_trees(source_trees[i as int].attrs, kept@);
        let ghost now = struct_view(*item);
        assert(now.fields[i as int] == source[i as int]);
        assert(now.field_trees[i as int] == source_trees[i as int]);
        let mut attrs: Vec<syn::Attribute> = Vec::new();
        let mut j: usize = 0;
        while j < kept.len()
            invariant
                j <= kept@.len(),
                i < source.len(),
                source.len() == source_trees.len(),
                kept@ == plan.fields@[i as int].attrs@,
                plan_fits(source, *plan),
                trees_aligned(start),
                source == start.fields,
                source_trees == start.field_trees,
                struct_view(*item) == now,
                now.fields[i as int] == source[i as int],
                now.field_trees[i as int] == source_trees[i as int],
                now.fields.len() == source.len(),
                now.field_trees.len() == source.len(),
                wanted == placed_attrs(source[i as int].attrs, kept@),
                wanted_trees == placed_trees(source_trees[i as int].attrs, kept@),
                attr_metas(attrs@) == wanted.take(j as int),
                attr_trees(attrs@) == wanted_trees.take(j as int),
            decreases kept@.len() - j,
        {
            assert(kept@[j as int].position < source[i as int].attrs.len());
            assert(wanted[j as int] == source[i as int].attrs[kept@[j as int].position as int]);
            assert(wanted_trees[j as int] == source_trees[i as int].attrs[kept@[j as int].position as int]);
            let ghost before = attrs@;
            match field_attr(item, i, kept[j].position) {
                Some(a) => {
                    assert(attribute_meta(a) == wanted[j as int]);
                    assert(attribute_trees(a) == wanted_trees[j as int]);
                    attrs.push(a);
                    assert(attrs@ == before.push(a));
                    assert(attr_metas(attrs@) =~= attr_metas(before).push(attribute_meta(a)));
                    assert(attr_trees(attrs@) =~= attr_trees(before).push(attribute_trees(a)));
                },
                None => {
                    assert(false);
                },
            }
            assert(attr_metas(attrs@) =~= wanted.take(j + 1));
            assert(attr_trees(attrs@) =~= wanted_trees.take(j + 1));
            j += 1;
        }
        assert(wanted.take(kept@.len() as int) =~= wanted);
        assert(wanted_trees.take(kept@.len() as int) =~= wanted_trees);
        set_field_attrs(item, i, attrs);
        assert(struct_view(*item).fields =~= applied(start, *plan, i + 1).fields);
        assert(struct_view(*item).field_trees =~= applied(start, *plan, i + 1).field_trees);
        i += 1;
    }
    if !plan.trailing_comma {
        drop_trailing_comma(item);
    }
}

/// Expands `quick_default` on a struct definition: the definition without
/// its `#[default(...)]` attributes, followed by a `Default` impl. A parse
/// error becomes a compile error.
pub fn quick_default2(_args: proc_macro2::TokenStream, input: proc_macro2::TokenStream) -> (r: proc_macro2::TokenStream)
    ensures
        default_expansion(input, stream_trees(r)),
{
    match QuickDefaultStruct::parse(input) {
        Err(e) => error_tokens(e),
        Ok(s) => s.to_tokens(),
    }
}

} // verus!
