//! Properties of the macros that span several functions, proved over the
//! specifications the functions' contracts use.
use vstd::prelude::*;
use crate::def_macro::{choice_spec, first_accepted, member_text};
use crate::default_expr::extracted_default;
use crate::syntax::expression_parses;
use crate::default_impl::{
    all_convert, body_parts, converts_to, default_call, default_expansion, default_output, field_parts, is_default_attr,
    kept_attrs, last_default, list_tokens, listed_parts, prepared_from, prepared_view, prepares,
    value_parts, QuickDefaultField, QuickDefaultFields, QuickDefaultStruct,
};
use crate::model::metas;
use crate::reader::reads;
use crate::deref_impl::{
    deref_expansion, deref_impl_parts, deref_output, named_targets, parse_args, plan_spec, targets_parts,
    ArgTokenView,
};
use crate::default_impl::{comma_list, impl_predicates, kept_trees, lemma_placed_kept_trees, GenericsView};
use crate::text::decimal;
use crate::syntax::{printed_view, StructView, TreeView};
use crate::model::{AttrInfo, FieldInfo, FieldView, FieldsInfo, FieldsShape, StructInfo};

verus! {

/// The attributes that stay on a field are exactly its attributes other
/// than `#[default(...)]`, in the order they are written.
pub proof fn law_kept_attrs_are_the_others(attrs: Seq<AttrInfo>)
    ensures
        kept_attrs(attrs) == attrs.filter(|a: AttrInfo| !is_default_attr(a)),
    decreases attrs.len(),
{
    reveal(Seq::filter);
    if attrs.len() > 0 {
        law_kept_attrs_are_the_others(attrs.drop_last());
    }
}

/// A field keeps its name and type, and its value in the `Default` impl is
/// the value of its last `#[default(value)]` attribute, or
/// `::std::default::Default::default()` when it has none.
pub proof fn law_field_value(f: FieldInfo, q: crate::default_impl::QuickDefaultField)
    requires
        converts_to(f, q),
    ensures
        q.ident == f.ident,
        q.ty == f.ty,
        value_parts(q) == match last_default(f.attrs@) {
            Some((_, lit)) => seq![lit],
            None => default_call(),
        },
{
}

/// A field without any `#[default(...)]` attribute gets
/// `::std::default::Default::default()` and keeps all its attributes.
pub proof fn law_no_default_attr(attrs: Seq<AttrInfo>)
    requires
        forall|j: int| 0 <= j < attrs.len() ==> !is_default_attr(#[trigger] attrs[j]),
    ensures
        last_default(attrs) is None,
        kept_attrs(attrs) == attrs,
    decreases attrs.len(),
{
    if attrs.len() > 0 {
        law_no_default_attr(attrs.drop_last());
        assert(attrs.drop_last().push(attrs.last()) =~= attrs);
    }
}

/// The impl's struct expression for a named struct lists its fields, each
/// prepared, in order between braces.
pub proof fn law_named_body(value: FieldsInfo, r: QuickDefaultFields)
    requires
        prepares(value, r),
        value.shape == FieldsShape::Named,
    ensures
        r matches QuickDefaultFields::DefaultNamed(n) && all_convert(value.fields@, n.named@)
            && body_parts(r) == seq!["{"@] + listed_parts(n.named@) + seq!["}"@],
{
}

/// The same for a tuple struct, with parentheses.
pub proof fn law_unnamed_body(value: FieldsInfo, r: QuickDefaultFields)
    requires
        prepares(value, r),
        value.shape == FieldsShape::Unnamed,
    ensures
        r matches QuickDefaultFields::DefaultUnnamed(u) && all_convert(value.fields@, u.unnamed@)
            && body_parts(r) == seq!["("@] + listed_parts(u.unnamed@) + seq![")"@],
{
}

/// A unit struct is kept as written and built by its bare name.
pub proof fn law_unit_body(value: FieldsInfo, r: QuickDefaultFields)
    requires
        prepares(value, r),
        value.shape == FieldsShape::Unit,
    ensures
        body_parts(r) == Seq::<Seq<char>>::empty(),
{
}

/// Two attribute lists with the same meta items give the same default.
proof fn lemma_last_default_by_metas(a1: Seq<AttrInfo>, a2: Seq<AttrInfo>)
    requires
        metas(a1) == metas(a2),
    ensures
        last_default(a1) is Some <==> last_default(a2) is Some,
        last_default(a1) matches Some((_, l1)) ==> last_default(a2) matches Some((_, l2)) && l1 == l2,
    decreases a1.len(),
{
    assert(a1.len() == metas(a1).len());
    assert(a2.len() == metas(a2).len());
    if a1.len() > 0 {
        assert(metas(a1.drop_last()) =~= metas(a1).drop_last());
        assert(metas(a2.drop_last()) =~= metas(a2).drop_last());
        lemma_last_default_by_metas(a1.drop_last(), a2.drop_last());
        assert(a1.last().meta@ == metas(a1).last());
        assert(a2.last().meta@ == metas(a2).last());
        assert(is_default_attr(a1.last()) == is_default_attr(a2.last()));
        assert(list_tokens(a1.last()) == list_tokens(a2.last()));
    }
}

/// Two preparations of fields with the same views give the same entries.
proof fn lemma_listed_by_views(f1: Seq<FieldInfo>, q1: Seq<QuickDefaultField>, f2: Seq<FieldInfo>, q2: Seq<QuickDefaultField>)
    requires
        all_convert(f1, q1),
        all_convert(f2, q2),
        f1.len() == f2.len(),
        forall|i: int| 0 <= i < f1.len() ==> (#[trigger] f1[i])@ == f2[i]@,
    ensures
        listed_parts(q1) == listed_parts(q2),
    decreases q1.len(),
{
    assert forall|i: int| 0 <= i < q1.len() implies field_parts(#[trigger] q1[i]) == field_parts(q2[i]) by {
        assert(converts_to(f1[i], q1[i]));
        assert(converts_to(f2[i], q2[i]));
        assert(f1[i]@ == f2[i]@);
        lemma_last_default_by_metas(f1[i].attrs@, f2[i].attrs@);
        assert(value_parts(q1[i]) == value_parts(q2[i]));
        assert(f1[i]@.ident == f2[i]@.ident);
    }
    if q1.len() > 1 {
        let g1 = f1.drop_last();
        let g2 = f2.drop_last();
        assert forall|i: int| 0 <= i < g1.len() implies converts_to(g1[i], #[trigger] q1.drop_last()[i]) by {
            assert(converts_to(f1[i], q1[i]));
        }
        assert forall|i: int| 0 <= i < g2.len() implies converts_to(g2[i], #[trigger] q2.drop_last()[i]) by {
            assert(converts_to(f2[i], q2[i]));
        }
        assert forall|i: int| 0 <= i < g1.len() implies (#[trigger] g1[i])@ == g2[i]@ by {
            assert(f1[i]@ == f2[i]@);
        }
        lemma_listed_by_views(g1, q1.drop_last(), g2, q2.drop_last());
        assert(field_parts(q1.last()) == field_parts(q2.last())) by {
            assert(field_parts(q1[q1.len() - 1]) == field_parts(q2[q2.len() - 1]));
        }
    } else if q1.len() == 1 {
        assert(field_parts(q1[0]) == field_parts(q2[0]));
    }
}

/// `quick_default` gives one output for one struct definition: any two
/// preparations of it emit the same tokens.
pub proof fn law_default_output_is_determined(
    v: StructView,
    s1: QuickDefaultStruct,
    s2: QuickDefaultStruct,
    out1: Seq<TreeView>,
    out2: Seq<TreeView>,
)
    requires
        prepared_view(v, s1),
        prepared_view(v, s2),
        default_output(s1, out1),
        default_output(s2, out2),
    ensures
        out1 == out2,
{
    let i1 = choose|info: StructInfo|
        #[trigger] reads(s1.item, info) && info.fields.wf() && s1.ident == info.ident && prepares(
            info.fields,
            s1.fields,
        );
    let i2 = choose|info: StructInfo|
        #[trigger] reads(s2.item, info) && info.fields.wf() && s2.ident == info.ident && prepares(
            info.fields,
            s2.fields,
        );
    let f1 = i1.fields.fields@;
    let f2 = i2.fields.fields@;
    assert(crate::model::field_views(f1) == crate::model::field_views(f2));
    assert(f1.len() == f2.len()) by {
        assert(crate::model::field_views(f1).len() == f1.len());
        assert(crate::model::field_views(f2).len() == f2.len());
    }
    assert forall|i: int| 0 <= i < f1.len() implies (#[trigger] f1[i])@ == f2[i]@ by {
        assert(crate::model::field_views(f1)[i] == f1[i]@);
        assert(crate::model::field_views(f2)[i] == f2[i]@);
    }
    assert(body_parts(s1.fields) == body_parts(s2.fields)) by {
        match (s1.fields, s2.fields) {
            (QuickDefaultFields::DefaultNamed(n1), QuickDefaultFields::DefaultNamed(n2)) => {
                lemma_listed_by_views(f1, n1.named@, f2, n2.named@);
            },
            (QuickDefaultFields::DefaultUnnamed(u1), QuickDefaultFields::DefaultUnnamed(u2)) => {
                lemma_listed_by_views(f1, u1.unnamed@, f2, u2.unnamed@);
            },
            _ => {},
        }
    }
    assert((s1.fields is SynFields) == (s2.fields is SynFields));
}

/// The expansion of `quick_default` depends on its input alone: two
/// expansions of one input (whatever the macro's arguments) are the same.
pub proof fn law_default_expansion_is_determined(
    input: proc_macro2::TokenStream,
    out1: Seq<TreeView>,
    out2: Seq<TreeView>,
)
    requires
        default_expansion(input, out1),
        default_expansion(input, out2),
    ensures
        out1 == out2,
{
    match crate::syntax::struct_parse(input) {
        Ok(v) => {
            let s1 = choose|s: QuickDefaultStruct| #[trigger] prepared_view(v, s) && default_output(s, out1);
            let s2 = choose|s: QuickDefaultStruct| #[trigger] prepared_view(v, s) && default_output(s, out2);
            law_default_output_is_determined(v, s1, s2, out1, out2);
        },
        Err(_) => {},
    }
}

/// The two forms of `quick_deref`'s arguments, `target = name` and `name`,
/// are both accepted and give the same impls for any struct.
pub proof fn law_argument_forms_agree(
    long: Seq<ArgTokenView>,
    short: Seq<ArgTokenView>,
    name: Seq<char>,
    fields: Seq<FieldView>,
)
    requires
        long.len() == 3,
        long[0].ident == Some("target"@),
        long[1].is_equals,
        long[2].ident == Some(name),
        short.len() == 1,
        short[0].ident == Some(name),
    ensures
        parse_args(long) matches Ok((Some(_), n)) && n == name,
        parse_args(short) matches Ok((None, n)) && n == name,
        parse_args(long) matches Ok(p) && parse_args(short) matches Ok(q) && plan_spec(fields, Some(p.1))
            == plan_spec(fields, Some(q.1)),
{
}

/// The two argument forms name the same field, so `quick_deref` expands a
/// struct alike under both.
pub proof fn law_argument_forms_expand_alike(
    long: Seq<ArgTokenView>,
    short: Seq<ArgTokenView>,
    input: proc_macro2::TokenStream,
    out: Seq<TreeView>,
)
    requires
        parse_args(long) matches Ok((Some(_), n1)) && parse_args(short) matches Ok((None, n2)) && n1 == n2,
    ensures
        parse_args(long) matches Ok(p) && parse_args(short) matches Ok(q) && (deref_expansion(
            input,
            Some(p.1),
            out,
        ) <==> deref_expansion(input, Some(q.1), out)),
{
}

/// `quick_deref` emits the struct as written first, and only adds after it.
pub proof fn law_struct_comes_first(v: StructView, name: Option<Seq<char>>, out: Seq<TreeView>)
    requires
        deref_output(v, name, out),
    ensures
        out.len() >= printed_view(v).len(),
        out.take(printed_view(v).len() as int) == printed_view(v),
{
    match plan_spec(v.fields, name) {
        None => {
            let e = choose|e: syn::Error|
                crate::syntax::error_message(e) == "Bad unit-field"@ && crate::syntax::error_spans(e) == (
                    v.fields_span,
                    v.fields_span,
                ) && out == printed_view(v) + #[trigger] crate::syntax::error_trees(e);
            assert(out.take(printed_view(v).len() as int) =~= printed_view(v));
        },
        Some(ts) => {
            assert(out.take(printed_view(v).len() as int) =~= printed_view(v));
        },
    }
}

/// The field is called `name`.
pub open spec fn is_named(f: FieldView, name: Seq<char>) -> bool {
    f.ident == Some(name)
}

/// With arguments naming `name`, every generated impl reaches a field
/// called `name` through that name, with that field's type, and there is
/// one impl per such field.
pub proof fn law_named_targets(fields: Seq<FieldView>, name: Seq<char>, k: int)
    requires
        0 <= k < named_targets(fields, name).len(),
    ensures
        named_targets(fields, name)[k].0 == name,
        exists|i: int|
            0 <= i < fields.len() && is_named(#[trigger] fields[i], name) && fields[i].ty == named_targets(fields, name)[k].1,
    decreases fields.len(),
{
    let before = named_targets(fields.drop_last(), name);
    if k < before.len() {
        law_named_targets(fields.drop_last(), name, k);
        let i = choose|i: int|
            0 <= i < fields.drop_last().len() && is_named(#[trigger] fields.drop_last()[i], name)
                && fields.drop_last()[i].ty == before[k].1;
        assert(fields[i] == fields.drop_last()[i]);
    } else {
        assert(fields[fields.len() - 1] == fields.last());
    }
}

/// `quick_def` reaches the first field whose verdict is `true`: no earlier
/// field is accepted; when none is accepted no impl is generated.
pub proof fn law_first_accepted(accepted: Seq<bool>, count: int)
    requires
        0 <= count,
    ensures
        first_accepted(accepted, count) matches Some(i) ==> 0 <= i < count && i < accepted.len()
            && accepted[i] && forall|j: int| 0 <= j < i ==> !(#[trigger] accepted[j]),
        first_accepted(accepted, count) is None ==> forall|j: int|
            0 <= j < count && j < accepted.len() ==> !(#[trigger] accepted[j]),
    decreases count,
{
    if count > 0 {
        law_first_accepted(accepted, count - 1);
    }
}

/// The member `quick_def` uses: a named field's name, or a tuple field's
/// index written as an `i32` literal.
pub proof fn law_quick_def_member(fields: Seq<FieldView>, accepted: Seq<bool>)
    requires
        first_accepted(accepted, fields.len() as int) is Some,
    ensures
        choice_spec(fields, accepted) matches Some((m, t)) && {
            let i = first_accepted(accepted, fields.len() as int)->0;
            &&& m == member_text(fields[i], i as nat)
            &&& t == fields[i].ty
        },
{
    law_first_accepted(accepted, fields.len() as int);
}


/// With arguments naming `name`, the plan reaches exactly the fields called
/// `name`, each through that name and with its type, in field order,
/// whatever else the fields carry (attributes among them).
pub proof fn law_named_targets_complete(fields: Seq<FieldView>, name: Seq<char>)
    ensures
        named_targets(fields, name) == fields.filter(|f: FieldView| f.ident == Some(name)).map_values(
            |f: FieldView| (name, f.ty),
        ),
        plan_spec(fields, Some(name)) == Some(
            fields.filter(|f: FieldView| f.ident == Some(name)).map_values(|f: FieldView| (name, f.ty)),
        ),
    decreases fields.len(),
{
    reveal(Seq::filter);
    if fields.len() > 0 {
        law_named_targets_complete(fields.drop_last(), name);
        let kept = fields.drop_last().filter(|f: FieldView| f.ident == Some(name));
        let x = fields.last();
        if x.ident == Some(name) {
            assert(fields.filter(|f: FieldView| f.ident == Some(name)) == kept.push(x));
            assert(kept.push(x).map_values(|f: FieldView| (name, f.ty)) =~= kept.map_values(
                |f: FieldView| (name, f.ty),
            ).push((name, x.ty)));
        } else {
            assert(fields.filter(|f: FieldView| f.ident == Some(name)) == kept);
        }
    } else {
        assert(fields.filter(|f: FieldView| f.ident == Some(name)).map_values(|f: FieldView| (name, f.ty))
            =~= Seq::<(Seq<char>, Seq<char>)>::empty());
    }
}

/// Without arguments the plan is one impl to the first field, reached as
/// `0`, with that field's type; a struct without fields gets the error.
pub proof fn law_plan_without_arguments(fields: Seq<FieldView>)
    ensures
        fields.len() == 0 ==> plan_spec(fields, None) is None,
        fields.len() > 0 ==> plan_spec(fields, None) == Some(seq![("0"@, fields[0].ty)]),
{
}

/// A field's default is the argument text of its last `#[default(..)]`
/// attribute whose arguments are one expression, wherever that attribute
/// stands among the others; there is none exactly when no such attribute
/// exists.
pub proof fn law_last_default_is_last(attrs: Seq<AttrInfo>)
    ensures
        last_default(attrs) is None <==> forall|j: int|
            0 <= j < attrs.len() ==> !(is_default_attr(#[trigger] attrs[j]) && expression_parses(
                list_tokens(attrs[j]),
            )),
        last_default(attrs) matches Some((a, t)) ==> exists|j: int|
            0 <= j < attrs.len() && #[trigger] attrs[j] == a && is_default_attr(a) && expression_parses(
                list_tokens(a),
            ) && t == list_tokens(a) && forall|k: int|
                j < k < attrs.len() ==> !(is_default_attr(#[trigger] attrs[k]) && expression_parses(
                    list_tokens(attrs[k]),
                )),
    decreases attrs.len(),
{
    if attrs.len() > 0 {
        let p = attrs.drop_last();
        law_last_default_is_last(p);
        let n = attrs.len() - 1;
        assert forall|j: int| 0 <= j < p.len() implies #[trigger] attrs[j] == p[j] by {}
        if is_default_attr(attrs.last()) && expression_parses(list_tokens(attrs.last())) {
            assert(attrs[n] == attrs.last());
        } else {
            assert(attrs[n] == attrs.last());
            if last_default(p) is Some {
                let (a, t) = last_default(p)->0;
                let j = choose|j: int|
                    0 <= j < p.len() && #[trigger] p[j] == a && is_default_attr(a) && expression_parses(
                        list_tokens(a),
                    ) && t == list_tokens(a) && forall|k: int|
                        j < k < p.len() ==> !(is_default_attr(#[trigger] p[k]) && expression_parses(
                            list_tokens(p[k]),
                        ));
                assert(attrs[j] == a);
                assert forall|k: int| j < k < attrs.len() implies !(is_default_attr(#[trigger] attrs[k])
                    && expression_parses(list_tokens(attrs[k]))) by {
                    if k < n {
                        assert(attrs[k] == p[k]);
                    }
                }
            } else {
                assert forall|j: int| 0 <= j < attrs.len() implies !(is_default_attr(#[trigger] attrs[j])
                    && expression_parses(list_tokens(attrs[j]))) by {
                    if j < n {
                        assert(attrs[j] == p[j]);
                    }
                }
            }
        }
    }
}

/// Reading a field's `#[default(..)]` succeeds exactly when every such
/// attribute's arguments are one expression; it then gives the arguments of
/// the last one, wherever it stands among the other attributes, and nothing
/// when there is none.
pub proof fn law_extracted_default_is_last(attrs: Seq<AttrInfo>)
    ensures
        extracted_default(attrs) is Some <==> forall|j: int|
            0 <= j < attrs.len() && is_default_attr(#[trigger] attrs[j]) ==> expression_parses(
                list_tokens(attrs[j]),
            ),
        extracted_default(attrs) == Some(None::<Seq<char>>) ==> forall|j: int|
            0 <= j < attrs.len() ==> !is_default_attr(#[trigger] attrs[j]),
        extracted_default(attrs) matches Some(Some(t)) ==> exists|j: int|
            0 <= j < attrs.len() && is_default_attr(#[trigger] attrs[j]) && t == list_tokens(attrs[j])
                && forall|k: int| j < k < attrs.len() ==> !is_default_attr(#[trigger] attrs[k]),
        extracted_default(attrs) is Some && (exists|j: int|
            0 <= j < attrs.len() && is_default_attr(#[trigger] attrs[j])) ==> extracted_default(
            attrs,
        ) matches Some(Some(_)),
    decreases attrs.len(),
{
    if attrs.len() > 0 {
        let p = attrs.drop_last();
        law_extracted_default_is_last(p);
        let n = attrs.len() - 1;
        assert(attrs[n] == attrs.last());
        assert forall|j: int| 0 <= j < p.len() implies #[trigger] attrs[j] == p[j] by {}
        if extracted_default(p) is None {
            let j = choose|j: int|
                !(0 <= j < p.len() && is_default_attr(#[trigger] p[j]) ==> expression_parses(
                    list_tokens(p[j]),
                ));
            assert(attrs[j] == p[j]);
        } else if is_default_attr(attrs.last()) {
        } else {
            assert forall|j: int| 0 <= j < attrs.len() && is_default_attr(#[trigger] attrs[j])
                implies expression_parses(list_tokens(attrs[j])) by {
                if j < n {
                    assert(attrs[j] == p[j]);
                }
            }
            if let Some(Some(t)) = extracted_default(p) {
                let j = choose|j: int|
                    0 <= j < p.len() && is_default_attr(#[trigger] p[j]) && t == list_tokens(p[j])
                        && forall|k: int| j < k < p.len() ==> !is_default_attr(#[trigger] p[k]);
                assert(attrs[j] == p[j]);
                assert forall|k: int| j < k < attrs.len() implies !is_default_attr(#[trigger] attrs[k]) by {
                    if k < n {
                        assert(attrs[k] == p[k]);
                    }
                }
            } else {
                assert forall|j: int| 0 <= j < attrs.len() implies !is_default_attr(#[trigger] attrs[j]) by {
                    if j < n {
                        assert(attrs[j] == p[j]);
                    }
                }
            }
        }
    }
}

/// A prepared field's entry in the impl's struct expression is its name and
/// `:` where it has them, then its `#[default(..)]` value, or
/// `::std::default::Default::default()` when it has none.
pub proof fn law_field_entry(q: QuickDefaultField)
    ensures
        field_parts(q) == (match q.ident {
            Some(i) => seq![i@],
            None => Seq::<Seq<char>>::empty(),
        }) + (if q.colon_token {
            seq![":"@]
        } else {
            Seq::<Seq<char>>::empty()
        }) + match q.default_value_attr {
            Some(d) => seq![d.attr_expr@],
            None => seq!["::std::default::Default::default()"@],
        },
{
}

/// The entries of the impl's struct expression are the prepared fields'
/// entries, in field order, separated by commas: entry `k` is field `k`'s.
pub proof fn law_listed_entries(qs: Seq<QuickDefaultField>)
    ensures
        qs.len() == 0 ==> listed_parts(qs) == Seq::<Seq<char>>::empty(),
        qs.len() > 0 ==> listed_parts(qs) == field_parts(qs[0]) + qs.drop_first().map_values(
            |q: QuickDefaultField| seq![","@] + field_parts(q),
        ).flatten(),
    decreases qs.len(),
{
    if qs.len() > 1 {
        let p = qs.drop_last();
        let x = qs.last();
        law_listed_entries(p);
        assert(p[0] == qs[0]);
        assert(qs.drop_first() =~= p.drop_first().push(x));
        let m = p.drop_first().map_values(|q: QuickDefaultField| seq![","@] + field_parts(q));
        assert(qs.drop_first().map_values(|q: QuickDefaultField| seq![","@] + field_parts(q)) =~= m.push(
            seq![","@] + field_parts(x),
        ));
        m.lemma_flatten_push(seq![","@] + field_parts(x));
        assert(listed_parts(qs) =~= field_parts(qs[0]) + m.flatten() + (seq![","@] + field_parts(x)));
    } else if qs.len() == 1 {
        assert(qs.drop_first().map_values(|q: QuickDefaultField| seq![","@] + field_parts(q)) =~= Seq::<
            Seq<Seq<char>>,
        >::empty());
        assert(Seq::<Seq<Seq<char>>>::empty().flatten() =~= Seq::<Seq<char>>::empty());
        assert(listed_parts(qs) =~= field_parts(qs[0]) + Seq::<Seq<char>>::empty());
    }
}


/// The impls of the plan come one after the other, one per target, in the
/// plan's order.
pub proof fn law_targets_in_order(ident: Seq<char>, ts: Seq<(Seq<char>, Seq<char>)>)
    ensures
        targets_parts(ident, ts) == ts.map_values(
            |t: (Seq<char>, Seq<char>)| deref_impl_parts(ident, t.0, t.1),
        ).flatten(),
    decreases ts.len(),
{
    if ts.len() > 0 {
        law_targets_in_order(ident, ts.drop_last());
        let m = ts.drop_last().map_values(|t: (Seq<char>, Seq<char>)| deref_impl_parts(ident, t.0, t.1));
        assert(ts.map_values(|t: (Seq<char>, Seq<char>)| deref_impl_parts(ident, t.0, t.1)) =~= m.push(
            deref_impl_parts(ident, ts.last().0, ts.last().1),
        ));
        m.lemma_flatten_push(deref_impl_parts(ident, ts.last().0, ts.last().1));
    } else {
        assert(ts.map_values(|t: (Seq<char>, Seq<char>)| deref_impl_parts(ident, t.0, t.1)) =~= Seq::<
            Seq<Seq<char>>,
        >::empty());
    }
}

/// The `where` predicates are listed in order, separated by commas.
pub proof fn law_comma_list(items: Seq<Seq<char>>)
    ensures
        items.len() == 0 ==> comma_list(items) == Seq::<Seq<char>>::empty(),
        items.len() > 0 ==> comma_list(items) == seq![items[0]] + items.drop_first().map_values(
            |x: Seq<char>| seq![","@, x],
        ).flatten(),
    decreases items.len(),
{
    if items.len() > 1 {
        let p = items.drop_last();
        law_comma_list(p);
        assert(p[0] == items[0]);
        assert(items.drop_first() =~= p.drop_first().push(items.last()));
        let m = p.drop_first().map_values(|x: Seq<char>| seq![","@, x]);
        assert(items.drop_first().map_values(|x: Seq<char>| seq![","@, x]) =~= m.push(seq![","@, items.last()]));
        m.lemma_flatten_push(seq![","@, items.last()]);
        assert(comma_list(items) =~= seq![items[0]] + m.flatten() + seq![","@, items.last()]);
    } else if items.len() == 1 {
        assert(items.drop_first().map_values(|x: Seq<char>| seq![","@, x]) =~= Seq::<Seq<Seq<char>>>::empty());
        assert(Seq::<Seq<Seq<char>>>::empty().flatten() =~= Seq::<Seq<char>>::empty());
        assert(comma_list(items) =~= seq![items[0]] + Seq::<Seq<char>>::empty());
    }
}

/// The impl bounds each type parameter by `Default`, after the struct's own
/// `where` predicates.
pub proof fn law_default_bounds(g: GenericsView)
    ensures
        impl_predicates(g).len() == g.where_predicates.len() + g.type_params.len(),
        forall|i: int| 0 <= i < g.where_predicates.len() ==> #[trigger] impl_predicates(g)[i] == g.where_predicates[i],
        forall|k: int|
            0 <= k < g.type_params.len() ==> #[trigger] impl_predicates(g)[g.where_predicates.len() + k]
                == g.type_params[k] + " : ::std::default::Default"@,
{
}

/// The emitted field keeps the trees of exactly its attributes other than
/// `#[default(..)]`, in the order they are written.
pub proof fn law_kept_trees(attrs: Seq<AttrInfo>, trees: Seq<Seq<TreeView>>)
    requires
        forall|j: int| 0 <= j < attrs.len() ==> (#[trigger] attrs[j]).position == j,
        trees.len() == attrs.len(),
    ensures
        kept_trees(metas(attrs), trees) == attrs.filter(|a: AttrInfo| !is_default_attr(a)).map_values(
            |a: AttrInfo| trees[a.position as int],
        ),
{
    lemma_placed_kept_trees(attrs, trees);
    law_kept_attrs_are_the_others(attrs);
}

/// `quick_def` reaches a named field through its name and a tuple field
/// through its index written as an `i32` literal.
pub proof fn law_member_text(f: FieldView, index: nat)
    ensures
        f.ident matches Some(n) ==> member_text(f, index) == n,
        f.ident is None ==> member_text(f, index) == decimal(index) + "i32"@,
{
}


/// The arguments are accepted exactly in the two forms `name` and
/// `target = name`, and give that name.
pub proof fn law_argument_grammar(toks: Seq<ArgTokenView>)
    ensures
        parse_args(toks) is Ok ==> (toks.len() == 1 && toks[0].ident is Some) || (toks.len() == 3
            && toks[0].ident == Some("target"@) && toks[1].is_equals && toks[2].ident is Some),
        toks.len() == 1 && toks[0].ident is Some ==> parse_args(toks) == Ok::<
            (Option<Seq<char>>, Seq<char>),
            crate::deref_impl::ArgsError,
        >((None, toks[0].ident->0)),
        toks.len() == 3 && toks[0].ident == Some("target"@) && toks[1].is_equals && toks[2].ident is Some
            ==> parse_args(toks) == Ok::<(Option<Seq<char>>, Seq<char>), crate::deref_impl::ArgsError>(
            (Some("target"@), toks[2].ident->0),
        ),
{
}

} // verus!
