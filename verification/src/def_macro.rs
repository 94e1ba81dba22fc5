//! `quick_def`: a `Deref` impl to the first field that the deref-target
//! receiver accepts.
//!
//! Whether the receiver accepts a field is decided by the `darling`
//! `FromField` derive of the macro crate; the decisions here take that
//! verdict per field as input.
use vstd::prelude::*;
use crate::deref_impl::{deref_impl_parts, write_deref_impl};
use crate::model::{FieldInfo, FieldView, field_views};
use crate::reader::read_struct;
use crate::syntax::{
    error_tokens, generated_trees, meta_list_errors, meta_list_refusal, parse_meta_and_struct,
    printed_view, receiver_parse, stream_trees, struct_fields, struct_name, struct_tokens, struct_view,
};
use crate::text::{TokenText, decimal, decimal_text};

verus! {

/// The parsed input of `quick_def`: a meta item followed by a struct.
pub struct QuickDefReceiver {
    pub meta: syn::Meta,
    pub item: syn::ItemStruct,
}

/// The index of the first field the receiver accepts; a field without a
/// verdict counts as not accepted.
pub open spec fn first_accepted(accepted: Seq<bool>, count: int) -> Option<int>
    decreases count,
{
    if count <= 0 {
        None
    } else {
        match first_accepted(accepted, count - 1) {
            Some(i) => Some(i),
            None => if count - 1 < accepted.len() && accepted[count - 1] {
                Some(count - 1)
            } else {
                None
            },
        }
    }
}

/// How the impl reaches field `index`: its name, or its index printed as an
/// `i32` literal (the type of the field counter).
pub open spec fn member_text(f: FieldView, index: nat) -> Seq<char> {
    match f.ident {
        Some(i) => i,
        None => decimal(index) + "i32"@,
    }
}

/// The `(member, type)` of the deref target, if any field is accepted.
pub open spec fn choice_spec(fields: Seq<FieldView>, accepted: Seq<bool>) -> Option<(Seq<char>, Seq<char>)> {
    match first_accepted(accepted, fields.len() as int) {
        Some(i) => Some((member_text(fields[i], i as nat), fields[i].ty)),
        None => None,
    }
}

/// Chooses the deref target: the first field whose verdict is `true`.
pub fn deref_target_choice(fields: &Vec<FieldInfo>, accepted: &Vec<bool>) -> (r: Option<(String, String)>)
    ensures
        match r {
            Some((m, t)) => choice_spec(field_views(fields@), accepted@) == Some((m@, t@)),
            None => choice_spec(field_views(fields@), accepted@) is None,
        },
{
    let mut field_idx: usize = 0;
    while field_idx < fields.len()
        invariant
            field_idx <= fields@.len(),
            first_accepted(accepted@, field_idx as int) is None,
        decreases fields@.len() - field_idx,
    {
        if field_idx < accepted.len() && accepted[field_idx] {
            let member = match &fields[field_idx].ident {
                Some(i) => i.clone(),
                None => decimal_text(field_idx).concat("i32"),
            };
            assert(first_accepted(accepted@, field_idx + 1) == Some(field_idx as int));
            assert(field_views(fields@)[field_idx as int] == fields@[field_idx as int]@);
            proof {
                lemma_first_accepted_stable(accepted@, field_idx + 1, fields@.len() as int);
            }
            return Some((member, fields[field_idx].ty.clone()));
        }
        field_idx += 1;
    }
    None
}

proof fn lemma_first_accepted_stable(accepted: Seq<bool>, k: int, n: int)
    requires
        0 <= k <= n,
        first_accepted(accepted, k) is Some,
    ensures
        first_accepted(accepted, n) == first_accepted(accepted, k),
    decreases n - k,
{
    if k < n {
        lemma_first_accepted_stable(accepted, k, n - 1);
    }
}

/// The generated text for a parsed struct and the per-field verdicts: a
/// `Deref` impl to the first accepted field, or nothing.
pub open spec fn def_parts(item: syn::ItemStruct, accepted: Seq<bool>) -> Seq<Seq<char>> {
    match choice_spec(struct_fields(item), accepted) {
        Some((m, ty)) => deref_impl_parts(struct_name(item), m, ty),
        None => Seq::<Seq<char>>::empty(),
    }
}

impl QuickDefReceiver {
    /// The impl's token texts for the chosen target, if any.
    pub fn deref_text(ident: &String, fields: &Vec<FieldInfo>, accepted: &Vec<bool>) -> (r: TokenText)
        ensures
            match choice_spec(field_views(fields@), accepted@) {
                Some((m, t)) => r@ == deref_impl_parts(ident@, m, t),
                None => r@ == Seq::<Seq<char>>::empty(),
            },
    {
        let mut text = TokenText::new();
        match deref_target_choice(fields, accepted) {
            Some((member, ty)) => {
                write_deref_impl(ident, &member, &ty, &mut text);
                assert(text@ =~= deref_impl_parts(ident@, member@, ty@));
            },
            None => {},
        }
        text
    }

    /// The impl's token texts for the struct: a `Deref` impl to the first
    /// field whose verdict in `accepted` is `true`, or nothing when there is
    /// none.
    pub fn generated_text(&self, accepted: &Vec<bool>) -> (r: TokenText)
        ensures
            r@ == def_parts(self.item, accepted@),
    {
        let info = read_struct(&self.item);
        QuickDefReceiver::deref_text(&info.ident, &info.fields.fields, accepted)
    }

    /// The struct as parsed, followed by its generated impl (see
    /// [`QuickDefReceiver::generated_text`]), if any.
    pub fn to_tokens(&self, accepted: &Vec<bool>) -> (r: proc_macro2::TokenStream)
        ensures
            stream_trees(r) == printed_view(struct_view(self.item)) + generated_trees(def_parts(self.item, accepted@)),
    {
        let mut tokens = struct_tokens(&self.item);
        self.generated_text(accepted).append_to(&mut tokens);
        tokens
    }
}

/// Reads the input of `quick_def`: its arguments must be a list of meta
/// items (else `darling`'s errors are the output), and its input a meta item
/// followed by a struct definition (else `syn`'s compile error is the
/// output).
pub fn quick_def_parse(args: proc_macro2::TokenStream, input: proc_macro2::TokenStream) -> (r: Result<
    QuickDefReceiver,
    proc_macro2::TokenStream,
>)
    ensures
        match meta_list_refusal(args) {
            Some(t) => r matches Err(out) && stream_trees(out) == t,
            None => match receiver_parse(input) {
                Ok(v) => r matches Ok(rc) && struct_view(rc.item) == v,
                Err(t) => r matches Err(out) && stream_trees(out) == t,
            },
        },
{
    match meta_list_errors(&args) {
        Some(errors) => return Err(errors),
        None => {},
    }
    match parse_meta_and_struct(input) {
        Ok((meta, item)) => Ok(QuickDefReceiver { meta, item }),
        Err(e) => Err(error_tokens(e)),
    }
}

} // verus!
