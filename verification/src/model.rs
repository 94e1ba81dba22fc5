//! A plain model of the parts of a struct definition that the macros read.
//!
//! Identifiers, types and attribute arguments are held as the token text that
//! `syn` prints for them; attributes remember their position in the field so
//! that decisions made on the model can be applied back to the parsed struct.
use vstd::prelude::*;

verus! {

/// The shape of an attribute's meta item.
pub enum AttrMeta {
    /// `#[path]`
    Path,
    /// `#[path = value]`
    NameValue,
    /// `#[path(tokens)]`; `ident` is the path when it is a single identifier.
    List { ident: Option<String>, tokens: String },
}

/// The meta item of an attribute, as text.
pub enum AttrMetaView {
    Path,
    NameValue,
    List { ident: Option<Seq<char>>, tokens: Seq<char> },
}

impl View for AttrMeta {
    type V = AttrMetaView;

    open spec fn view(&self) -> AttrMetaView {
        match self {
            AttrMeta::Path => AttrMetaView::Path,
            AttrMeta::NameValue => AttrMetaView::NameValue,
            AttrMeta::List { ident, tokens } => AttrMetaView::List {
                ident: match ident {
                    Some(i) => Some(i@),
                    None => None,
                },
                tokens: tokens@,
            },
        }
    }
}

/// A field as text: its name, its type and its attributes' meta items.
pub struct FieldView {
    pub ident: Option<Seq<char>>,
    pub ty: Seq<char>,
    pub attrs: Seq<AttrMetaView>,
}

/// The meta items of a field's attributes.
pub open spec fn metas(attrs: Seq<AttrInfo>) -> Seq<AttrMetaView> {
    attrs.map_values(|a: AttrInfo| a.meta@)
}

/// One outer attribute of a field.
pub struct AttrInfo {
    /// Index of the attribute among the field's attributes in the source.
    pub position: usize,
    pub meta: AttrMeta,
}

/// One field of a struct.
pub struct FieldInfo {
    /// The field's name; `None` for the fields of a tuple struct.
    pub ident: Option<String>,
    /// The token text of the field's type.
    pub ty: String,
    pub attrs: Vec<AttrInfo>,
}

/// The three kinds of struct bodies.
#[derive(PartialEq, Eq, Structural, Clone, Copy)]
pub enum FieldsShape {
    Named,
    Unnamed,
    Unit,
}

/// The body of a struct.
pub struct FieldsInfo {
    pub shape: FieldsShape,
    /// Whether the last field is followed by a comma in the source.
    pub trailing_comma: bool,
    pub fields: Vec<FieldInfo>,
}

/// What the macros read of a struct definition.
pub struct StructInfo {
    /// The struct's name.
    pub ident: String,
    pub fields: FieldsInfo,
}

impl View for FieldInfo {
    type V = FieldView;

    open spec fn view(&self) -> FieldView {
        FieldView {
            ident: match self.ident {
                Some(i) => Some(i@),
                None => None,
            },
            ty: self.ty@,
            attrs: metas(self.attrs@),
        }
    }
}

/// The fields as text.
pub open spec fn field_views(fields: Seq<FieldInfo>) -> Seq<FieldView> {
    fields.map_values(|f: FieldInfo| f@)
}

impl FieldInfo {
    /// Each attribute records its own index among the field's attributes.
    pub open spec fn wf(self) -> bool {
        forall|j: int| 0 <= j < self.attrs@.len() ==> (#[trigger] self.attrs@[j]).position == j
    }
}

/// A body with this shape, trailing comma and fields is one that `syn`
/// produces: named fields carry a name, tuple fields do not, a unit struct
/// has no fields, and an empty body has no trailing comma.
pub open spec fn body_consistent(shape: FieldsShape, trailing: bool, fields: Seq<FieldView>) -> bool {
    &&& (fields.len() == 0 ==> !trailing)
    &&& match shape {
        FieldsShape::Named => forall|i: int| 0 <= i < fields.len() ==> (#[trigger] fields[i]).ident is Some,
        FieldsShape::Unnamed => forall|i: int| 0 <= i < fields.len() ==> (#[trigger] fields[i]).ident is None,
        FieldsShape::Unit => fields.len() == 0,
    }
}

impl FieldsInfo {
    /// The body is one that a `syn::Fields` value can hold: each attribute
    /// records its own position, a unit body has no fields, and a trailing
    /// comma is recorded only after some field.
    pub open spec fn wf(self) -> bool {
        &&& (self.fields@.len() == 0 ==> !self.trailing_comma)
        &&& (self.shape == FieldsShape::Unit ==> self.fields@.len() == 0)
        &&& forall|i: int| 0 <= i < self.fields@.len() ==> (#[trigger] self.fields@[i]).wf()
    }

    /// Named fields carry a name and tuple fields do not, as in every body
    /// that `syn`'s parser builds.
    pub open spec fn names_consistent(self) -> bool {
        match self.shape {
            FieldsShape::Named => forall|i: int|
                0 <= i < self.fields@.len() ==> (#[trigger] self.fields@[i]).ident is Some,
            FieldsShape::Unnamed => forall|i: int|
                0 <= i < self.fields@.len() ==> (#[trigger] self.fields@[i]).ident is None,
            FieldsShape::Unit => true,
        }
    }
}

impl Clone for AttrMeta {
    fn clone(&self) -> (r: Self)
        ensures
            r == *self,
    {
        match self {
            AttrMeta::Path => AttrMeta::Path,
            AttrMeta::NameValue => AttrMeta::NameValue,
            AttrMeta::List { ident, tokens } => {
                let ident = match ident {
                    Some(i) => Some(i.clone()),
                    None => None,
                };
                AttrMeta::List { ident, tokens: tokens.clone() }
            },
        }
    }
}

impl Clone for AttrInfo {
    fn clone(&self) -> (r: Self)
        ensures
            r == *self,
    {
        AttrInfo { position: self.position, meta: self.meta.clone() }
    }
}

/// A copy of a sequence of attributes.
pub fn clone_attrs(attrs: &Vec<AttrInfo>) -> (r: Vec<AttrInfo>)
    ensures
        r@ == attrs@,
{
    let mut r: Vec<AttrInfo> = Vec::new();
    let mut i: usize = 0;
    while i < attrs.len()
        invariant
            i <= attrs@.len(),
            r@ == attrs@.subrange(0, i as int),
        decreases attrs@.len() - i,
    {
        r.push(attrs[i].clone());
        i += 1;
    }
    r
}

impl Clone for FieldInfo {
    fn clone(&self) -> (r: Self)
        ensures
            r.ident == self.ident,
            r.ty == self.ty,
            r.attrs@ == self.attrs@,
    {
        let ident = match &self.ident {
            Some(i) => Some(i.clone()),
            None => None,
        };
        FieldInfo { ident, ty: self.ty.clone(), attrs: clone_attrs(&self.attrs) }
    }
}

} // verus!
