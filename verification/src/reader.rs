//! Reading the model of a parsed struct through the trusted bridge.
use vstd::prelude::*;
use crate::model::{
    AttrInfo, FieldInfo, FieldsInfo, FieldsShape, StructInfo, body_consistent, field_views, metas,
};
use crate::syntax::{
    field_attr_count, field_attr_meta, field_count, field_ident, field_type, struct_field_trees,
    struct_fields, struct_view, trees_aligned,
    struct_ident, struct_name, struct_shape, struct_shape_of, struct_trailing, struct_trailing_comma,
};

verus! {

/// `info` is what the parsed struct holds.
pub open spec fn reads(item: syn::ItemStruct, info: StructInfo) -> bool {
    &&& info.ident@ == struct_name(item)
    &&& info.fields.shape == struct_shape_of(item)
    &&& info.fields.trailing_comma == struct_trailing(item)
    &&& field_views(info.fields.fields@) == struct_fields(item)
    &&& trees_aligned(struct_view(item))
}

/// The attributes of field `index`, each with its position.
fn read_attrs(item: &syn::ItemStruct, index: usize) -> (r: Vec<AttrInfo>)
    requires
        index < struct_fields(*item).len(),
        struct_field_trees(*item).len() == struct_fields(*item).len(),
    ensures
        metas(r@) == struct_fields(*item)[index as int].attrs,
        r@.len() == struct_field_trees(*item)[index as int].attrs.len(),
        forall|j: int| 0 <= j < r@.len() ==> (#[trigger] r@[j]).position == j,
{
    let count = field_attr_count(item, index);
    let ghost expected = struct_fields(*item)[index as int].attrs;
    let mut attrs: Vec<AttrInfo> = Vec::new();
    let mut position: usize = 0;
    while position < count
        invariant
            position <= count,
            count == expected.len(),
            index < struct_fields(*item).len(),
            expected == struct_fields(*item)[index as int].attrs,
            attrs@.len() == position,
            metas(attrs@) == expected.take(position as int),
            forall|j: int| 0 <= j < attrs@.len() ==> (#[trigger] attrs@[j]).position == j,
        decreases count - position,
    {
        match field_attr_meta(item, index, position) {
            Some(meta) => {
                attrs.push(AttrInfo { position, meta });
            },
            None => {},
        }
        assert(metas(attrs@) =~= expected.take(position + 1));
        position += 1;
    }
    assert(expected.take(count as int) =~= expected);
    attrs
}

/// The model of a struct definition, read field by field.
pub fn read_struct(item: &syn::ItemStruct) -> (r: StructInfo)
    ensures
        reads(*item, r),
        r.fields.wf(),
        body_consistent(struct_shape_of(*item), struct_trailing(*item), struct_fields(*item))
            ==> r.fields.names_consistent(),
{
    let ident = struct_ident(item);
    let shape = struct_shape(item);
    let trailing_comma = struct_trailing_comma(item);
    let count = field_count(item);
    let ghost views = struct_fields(*item);
    let mut fields: Vec<FieldInfo> = Vec::new();
    let mut index: usize = 0;
    while index < count
        invariant
            index <= count,
            count == views.len(),
            count == struct_field_trees(*item).len(),
            views == struct_fields(*item),
            forall|i: int| 0 <= i < index ==> (#[trigger] struct_field_trees(*item)[i]).attrs.len()
                == views[i].attrs.len(),
            fields@.len() == index,
            field_views(fields@) == views.take(index as int),
            forall|i: int| 0 <= i < fields@.len() ==> (#[trigger] fields@[i]).wf(),
        decreases count - index,
    {
        let field_name = field_ident(item, index);
        let ty = match field_type(item, index) {
            Some(t) => t,
            None => String::new(),
        };
        let attrs = read_attrs(item, index);
        assert(metas(attrs@).len() == attrs@.len());
        let field = FieldInfo { ident: field_name, ty, attrs };
        assert(field@ == views[index as int]);
        fields.push(field);
        assert(field_views(fields@) =~= views.take(index + 1));
        index += 1;
    }
    assert(views.take(count as int) =~= views);
    let info = StructInfo { ident, fields: FieldsInfo { shape, trailing_comma, fields } };
    assert forall|i: int| 0 <= i < info.fields.fields@.len() implies (#[trigger] info.fields.fields@[i])@
        == views[i] by {
        assert(field_views(info.fields.fields@)[i] == info.fields.fields@[i]@);
    }
    info
}

} // verus!
