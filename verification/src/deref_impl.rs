//! `quick_deref`: a `Deref` impl to one field of a struct.
//!
//! Without arguments the target is the struct's first field, reached as
//! `self.0`; with the arguments `target = name` or `name`, every field called
//! `name` becomes a target.
use vstd::prelude::*;
use crate::model::{FieldInfo, FieldView, field_views};
use crate::reader::read_struct;
use crate::syntax::{
    append_tokens, empty_tokens, error_at_fields, error_at_tree, error_message, error_spanning,
    error_spans, error_tokens, error_trees, generated_trees, tree_span, parse_item_struct, parse_tree_ident, stream_trees,
    struct_fields, struct_name, struct_parse, struct_tokens, struct_view, tokens_are_empty,
    tree_count, tree_ident, tree_punct, tree_punct_char, printed_view, StructView, TreeView,
};
use crate::text::TokenText;

verus! {

/// One token of the macro's arguments, as the argument grammar reads it.
pub struct ArgToken {
    /// The identifier, when the token is one that `syn` accepts as an
    /// identifier (not a keyword).
    pub ident: Option<String>,
    /// Whether the token is the punctuation `=`.
    pub is_equals: bool,
}

/// A token of the arguments as text.
pub struct ArgTokenView {
    pub ident: Option<Seq<char>>,
    pub is_equals: bool,
}

impl View for ArgToken {
    type V = ArgTokenView;

    open spec fn view(&self) -> ArgTokenView {
        ArgTokenView {
            ident: match self.ident {
                Some(i) => Some(i@),
                None => None,
            },
            is_equals: self.is_equals,
        }
    }
}

/// The tokens as text.
pub open spec fn arg_views(toks: Seq<ArgToken>) -> Seq<ArgTokenView> {
    toks.map_values(|t: ArgToken| t@)
}

/// The tokens of an argument stream as the grammar reads them: each tree's
/// identifier (when `syn` reads the tree alone as one) and whether it is the
/// punctuation `=`.
pub open spec fn stream_args(args: proc_macro2::TokenStream) -> Seq<ArgTokenView> {
    Seq::new(
        stream_trees(args).len(),
        |i: int|
            ArgTokenView {
                ident: match tree_ident(args, i) {
                    Ok(name) => Some(name),
                    Err(_) => None,
                },
                is_equals: tree_punct(args, i) == Some('='),
            },
    )
}

/// Where and why the arguments are refused.
#[derive(PartialEq, Eq, Structural, Clone, Copy)]
pub enum ArgsError {
    /// Token `i` is not an identifier.
    ExpectedIdent(usize),
    /// The arguments end where an identifier is expected.
    EndOfInput,
    /// Token `i` names something other than `target` before `=`.
    InvalidTargetToken(usize),
    /// Token `i` follows complete arguments.
    UnexpectedToken(usize),
}

/// The arguments of `quick_deref`: `target = name` or `name`.
pub struct DerefTargetMetaArgs {
    pub target_token: Option<String>,
    pub equals_token: bool,
    pub target_ident: String,
}

/// The argument grammar: `name`, or `target = name`, and nothing after it.
/// The result is the `target` keyword when given and the name.
pub open spec fn parse_args(toks: Seq<ArgTokenView>) -> Result<(Option<Seq<char>>, Seq<char>), ArgsError> {
    if toks.len() >= 2 && toks[1].is_equals {
        match toks[0].ident {
            None => Err(ArgsError::ExpectedIdent(0)),
            Some(t) => if t != "target"@ {
                Err(ArgsError::InvalidTargetToken(0))
            } else if toks.len() < 3 {
                Err(ArgsError::EndOfInput)
            } else {
                match toks[2].ident {
                    None => Err(ArgsError::ExpectedIdent(2)),
                    Some(name) => if toks.len() > 3 {
                        Err(ArgsError::UnexpectedToken(3))
                    } else {
                        Ok((Some(t), name))
                    },
                }
            },
        }
    } else if toks.len() == 0 {
        Err(ArgsError::EndOfInput)
    } else {
        match toks[0].ident {
            None => Err(ArgsError::ExpectedIdent(0)),
            Some(name) => if toks.len() > 1 {
                Err(ArgsError::UnexpectedToken(1))
            } else {
                Ok((None, name))
            },
        }
    }
}

/// `args` is what the grammar gives.
pub open spec fn args_match(args: DerefTargetMetaArgs, parsed: (Option<Seq<char>>, Seq<char>)) -> bool {
    &&& match (args.target_token, parsed.0) {
        (None, None) => true,
        (Some(t), Some(u)) => t@ == u,
        _ => false,
    }
    &&& args.equals_token == (parsed.0 is Some)
    &&& args.target_ident@ == parsed.1
}

impl DerefTargetMetaArgs {
    /// Reads the arguments from their tokens.
    pub fn parse_tokens(toks: &Vec<ArgToken>) -> (r: Result<DerefTargetMetaArgs, ArgsError>)
        ensures
            match parse_args(arg_views(toks@)) {
                Ok(p) => r matches Ok(a) && args_match(a, p),
                Err(e) => r == Err::<DerefTargetMetaArgs, _>(e),
            },
    {
        let ghost views = arg_views(toks@);
        assert(views.len() == toks@.len());
        assert(toks@.len() >= 1 ==> views[0] == toks@[0]@);
        assert(toks@.len() >= 2 ==> views[1] == toks@[1]@);
        assert(toks@.len() >= 3 ==> views[2] == toks@[2]@);
        if toks.len() >= 2 && toks[1].is_equals {
            let target_token = match &toks[0].ident {
                None => return Err(ArgsError::ExpectedIdent(0)),
                Some(t) => t.clone(),
            };
            if target_token != String::from_str("target") {
                return Err(ArgsError::InvalidTargetToken(0));
            }
            if toks.len() < 3 {
                return Err(ArgsError::EndOfInput);
            }
            let target_ident = match &toks[2].ident {
                None => return Err(ArgsError::ExpectedIdent(2)),
                Some(name) => name.clone(),
            };
            if toks.len() > 3 {
                return Err(ArgsError::UnexpectedToken(3));
            }
            Ok(DerefTargetMetaArgs { target_token: Some(target_token), equals_token: true, target_ident })
        } else {
            if toks.len() == 0 {
                return Err(ArgsError::EndOfInput);
            }
            let target_ident = match &toks[0].ident {
                None => return Err(ArgsError::ExpectedIdent(0)),
                Some(name) => name.clone(),
            };
            if toks.len() > 1 {
                return Err(ArgsError::UnexpectedToken(1));
            }
            Ok(DerefTargetMetaArgs { target_token: None, equals_token: false, target_ident })
        }
    }

    /// Parses the macro's arguments; a refusal becomes an error at the
    /// offending token (at the call site for missing tokens). The arguments
    /// are accepted exactly when the grammar accepts the stream's tokens.
    pub fn parse(args: proc_macro2::TokenStream) -> (r: Result<DerefTargetMetaArgs, syn::Error>)
        ensures
            match parse_args(stream_args(args)) {
                Ok(p) => r matches Ok(a) && args_match(a, p),
                Err(ArgsError::ExpectedIdent(k)) => r matches Err(e) && tree_ident(args, k as int)
                    == Err::<Seq<char>, Seq<TreeView>>(error_trees(e)),
                Err(ArgsError::InvalidTargetToken(k)) => r matches Err(e) && error_message(e)
                    == "Invalid target token"@ && error_spans(e) == (tree_span(args, k as int), tree_span(args, k as int)),
                Err(ArgsError::UnexpectedToken(k)) => r matches Err(e) && error_message(e)
                    == "unexpected token"@ && error_spans(e) == (tree_span(args, k as int), tree_span(args, k as int)),
                Err(ArgsError::EndOfInput) => r matches Err(e) && error_message(e)
                    == "unexpected end of input, expected identifier"@,
            },
    {
        let count = tree_count(&args);
        let mut toks: Vec<ArgToken> = Vec::new();
        let mut i: usize = 0;
        while i < count
            invariant
                i <= count,
                count == stream_trees(args).len(),
                toks@.len() == i,
                forall|k: int| 0 <= k < i ==> (#[trigger] toks@[k])@ == stream_args(args)[k],
            decreases count - i,
        {
            let ident = match parse_tree_ident(&args, i) {
                Some(Ok(name)) => Some(name),
                _ => None,
            };
            let is_equals = match tree_punct_char(&args, i) {
                Some(c) => c == '=',
                None => false,
            };
            toks.push(ArgToken { ident, is_equals });
            i += 1;
        }
        assert(arg_views(toks@) =~= stream_args(args));
        match DerefTargetMetaArgs::parse_tokens(&toks) {
            Ok(a) => Ok(a),
            Err(ArgsError::ExpectedIdent(k)) => {
                assert(k < stream_args(args).len() && stream_args(args)[k as int].ident is None);
                match parse_tree_ident(&args, k) {
                    Some(Err(e)) => Err(e),
                    _ => Err(error_spanning(&empty_tokens(), "expected identifier")),
                }
            },
            Err(ArgsError::InvalidTargetToken(k)) => match error_at_tree(&args, k, "Invalid target token") {
                Some(e) => Err(e),
                None => Err(error_spanning(&empty_tokens(), "Invalid target token")),
            },
            Err(ArgsError::UnexpectedToken(k)) => match error_at_tree(&args, k, "unexpected token") {
                Some(e) => Err(e),
                None => Err(error_spanning(&empty_tokens(), "unexpected token")),
            },
            Err(ArgsError::EndOfInput) => Err(
                error_spanning(&empty_tokens(), "unexpected end of input, expected identifier"),
            ),
        }
    }
}

/// A field a `Deref` impl goes to: how it is reached from `self` and its type.
pub struct DerefTarget {
    pub member: String,
    pub ty: String,
}

/// What `quick_deref` generates after the struct.
pub enum DerefPlan {
    /// The struct has no field to go to: a "Bad unit-field" error.
    BadUnitField,
    /// One `Deref` impl per target, in field order.
    Targets(Vec<DerefTarget>),
}

/// The targets as (member, type) texts.
pub open spec fn targets_view(ts: Seq<DerefTarget>) -> Seq<(Seq<char>, Seq<char>)> {
    ts.map_values(|t: DerefTarget| (t.member@, t.ty@))
}

/// The fields called `name`, reached through their name, in order.
pub open spec fn named_targets(fields: Seq<FieldView>, name: Seq<char>) -> Seq<(Seq<char>, Seq<char>)>
    decreases fields.len(),
{
    if fields.len() == 0 {
        Seq::empty()
    } else {
        let before = named_targets(fields.drop_last(), name);
        match fields.last().ident {
            Some(i) => if i == name {
                before.push((i, fields.last().ty))
            } else {
                before
            },
            None => before,
        }
    }
}

/// The plan for a struct's fields: without arguments, the first field
/// reached as `0` (an error when there is none); with arguments, every field
/// with the given name.
pub open spec fn plan_spec(fields: Seq<FieldView>, name: Option<Seq<char>>) -> Option<Seq<(Seq<char>, Seq<char>)>> {
    match name {
        None => if fields.len() == 0 {
            None
        } else {
            Some(seq![("0"@, fields[0].ty)])
        },
        Some(n) => Some(named_targets(fields, n)),
    }
}

/// The plan's view: `None` for the error.
pub open spec fn plan_view(p: DerefPlan) -> Option<Seq<(Seq<char>, Seq<char>)>> {
    match p {
        DerefPlan::BadUnitField => None,
        DerefPlan::Targets(ts) => Some(targets_view(ts@)),
    }
}

/// The name the arguments give, if any.
pub open spec fn target_name(args: Option<DerefTargetMetaArgs>) -> Option<Seq<char>> {
    match args {
        Some(a) => Some(a.target_ident@),
        None => None,
    }
}

/// Decides the `Deref` impls for a struct's fields.
pub fn deref_plan(fields: &Vec<FieldInfo>, args: &Option<DerefTargetMetaArgs>) -> (r: DerefPlan)
    ensures
        plan_view(r) == plan_spec(field_views(fields@), target_name(*args)),
        args is None && fields@.len() == 0 ==> r is BadUnitField,
        args is None && fields@.len() > 0 ==> plan_view(r) == Some(seq![("0"@, fields@[0].ty@)]),
        args matches Some(a) ==> plan_view(r) == Some(
            field_views(fields@).filter(|f: FieldView| f.ident == Some(a.target_ident@)).map_values(
                |f: FieldView| (a.target_ident@, f.ty),
            ),
        ),
{
    proof {
        if fields@.len() > 0 {
            assert(field_views(fields@)[0] == fields@[0]@);
        }
        if let Some(a) = args {
            crate::laws::law_named_targets_complete(field_views(fields@), a.target_ident@);
        }
    }
    match args {
        None => {
            if fields.len() == 0 {
                return DerefPlan::BadUnitField;
            }
            let mut ts: Vec<DerefTarget> = Vec::new();
            ts.push(DerefTarget { member: String::from_str("0"), ty: fields[0].ty.clone() });
            assert(field_views(fields@)[0] == fields@[0]@);
            assert(targets_view(ts@) =~= seq![("0"@, fields@[0].ty@)]);
            DerefPlan::Targets(ts)
        },
        Some(a) => {
            let mut ts: Vec<DerefTarget> = Vec::new();
            let mut i: usize = 0;
            let ghost views = field_views(fields@);
            assert(targets_view(ts@) =~= named_targets(views.take(0), a.target_ident@));
            while i < fields.len()
                invariant
                    i <= fields@.len(),
                    views == field_views(fields@),
                    targets_view(ts@) == named_targets(views.take(i as int), a.target_ident@),
                decreases fields@.len() - i,
            {
                let ghost prefix = views.take(i + 1);
                assert(prefix.drop_last() =~= views.take(i as int));
                assert(prefix.last() == fields@[i as int]@);
                let ghost before = ts@;
                match &fields[i].ident {
                    Some(field_ident) => {
                        if *field_ident == a.target_ident {
                            ts.push(DerefTarget { member: field_ident.clone(), ty: fields[i].ty.clone() });
                            assert(ts@ == before.push(ts@.last()));
                        }
                    },
                    None => {},
                }
                assert(targets_view(ts@) =~= named_targets(prefix, a.target_ident@));
                i += 1;
            }
            assert(views.take(fields@.len() as int) =~= views);
            DerefPlan::Targets(ts)
        },
    }
}

/// `impl ::core::ops::Deref for Name { type Target = Ty; fn deref(&self) -> &Self::Target { &self.member } }`.
pub open spec fn deref_impl_parts(ident: Seq<char>, member: Seq<char>, ty: Seq<char>) -> Seq<Seq<char>> {
    seq![
        "impl"@,
        "::core::ops::Deref"@,
        "for"@,
        ident,
        "{"@,
        "type"@,
        "Target"@,
        "="@,
        ty,
        ";"@,
        "fn"@,
        "deref"@,
        "("@,
        "&"@,
        "self"@,
        ")"@,
        "->"@,
        "&"@,
        "Self::Target"@,
        "{"@,
        "&"@,
        "self"@,
        "."@,
        member,
        "}"@,
        "}"@,
    ]
}

/// Writes one `Deref` impl.
pub fn write_deref_impl(ident: &String, member: &String, ty: &String, tokens: &mut TokenText)
    ensures
        final(tokens)@ == old(tokens)@ + deref_impl_parts(ident@, member@, ty@),
{
    let ghost start = tokens@;
    tokens.push("impl");
    tokens.push("::core::ops::Deref");
    tokens.push("for");
    tokens.push_string(ident.clone());
    tokens.push("{");
    tokens.push("type");
    tokens.push("Target");
    tokens.push("=");
    tokens.push_string(ty.clone());
    tokens.push(";");
    tokens.push("fn");
    tokens.push("deref");
    tokens.push("(");
    tokens.push("&");
    tokens.push("self");
    tokens.push(")");
    tokens.push("->");
    tokens.push("&");
    tokens.push("Self::Target");
    tokens.push("{");
    tokens.push("&");
    tokens.push("self");
    tokens.push(".");
    tokens.push_string(member.clone());
    tokens.push("}");
    tokens.push("}");
    assert(tokens@ =~= start + deref_impl_parts(ident@, member@, ty@));
}

/// The impls for every target, one after the other.
pub open spec fn targets_parts(ident: Seq<char>, ts: Seq<(Seq<char>, Seq<char>)>) -> Seq<Seq<char>>
    decreases ts.len(),
{
    if ts.len() == 0 {
        Seq::empty()
    } else {
        targets_parts(ident, ts.drop_last()) + deref_impl_parts(ident, ts.last().0, ts.last().1)
    }
}

/// Writes the impls for every target.
pub fn write_targets(ident: &String, ts: &Vec<DerefTarget>, tokens: &mut TokenText)
    ensures
        final(tokens)@ == old(tokens)@ + targets_parts(ident@, targets_view(ts@)),
{
    let ghost start = tokens@;
    let mut i: usize = 0;
    assert(targets_view(ts@).take(0) =~= Seq::<(Seq<char>, Seq<char>)>::empty());
    assert(tokens@ =~= start + targets_parts(ident@, targets_view(ts@).take(0)));
    while i < ts.len()
        invariant
            i <= ts@.len(),
            tokens@ == start + targets_parts(ident@, targets_view(ts@).take(i as int)),
        decreases ts@.len() - i,
    {
        let ghost prefix = targets_view(ts@).take(i + 1);
        assert(prefix.drop_last() =~= targets_view(ts@).take(i as int));
        assert(prefix.last() == (ts@[i as int].member@, ts@[i as int].ty@));
        write_deref_impl(ident, &ts[i].member, &ts[i].ty, tokens);
        assert(tokens@ =~= start + targets_parts(ident@, prefix));
        i += 1;
    }
    assert(targets_view(ts@).take(ts@.len() as int) =~= targets_view(ts@));
}

/// `out` is what `quick_deref` emits for a struct and the target name of its
/// arguments (if any): the struct as written, then one `Deref` impl per
/// target of the plan (nothing when there is none), or an error "Bad
/// unit-field" when the plan has no target field.
pub open spec fn deref_output(v: StructView, name: Option<Seq<char>>, out: Seq<TreeView>) -> bool {
    match plan_spec(v.fields, name) {
        None => exists|e: syn::Error|
            error_message(e) == "Bad unit-field"@ && error_spans(e) == (v.fields_span, v.fields_span)
                && out == printed_view(v) + #[trigger] error_trees(e),
        Some(ts) => out == printed_view(v) + generated_trees(targets_parts(v.name, ts)),
    }
}

/// `out` is the expansion of `quick_deref` on `input` for the target name
/// of the arguments (if any): the output for the struct `syn` parses from
/// `input`, or the compile error of `syn`'s refusal.
pub open spec fn deref_expansion(input: proc_macro2::TokenStream, name: Option<Seq<char>>, out: Seq<TreeView>) -> bool {
    match struct_parse(input) {
        Ok(v) => deref_output(v, name, out),
        Err(t) => out == t,
    }
}

/// The message of a refusal of the arguments; `None` where the refusal is
/// `syn`'s own error for a token that is not an identifier.
pub open spec fn args_error_message(e: ArgsError) -> Option<Seq<char>> {
    match e {
        ArgsError::ExpectedIdent(_) => None,
        ArgsError::InvalidTargetToken(_) => Some("Invalid target token"@),
        ArgsError::UnexpectedToken(_) => Some("unexpected token"@),
        ArgsError::EndOfInput => Some("unexpected end of input, expected identifier"@),
    }
}

/// `out` is the compile error for refused arguments, with the refusal's
/// message, at the offending token where there is one.
pub open spec fn args_refused(args: proc_macro2::TokenStream, e: ArgsError, out: Seq<TreeView>) -> bool {
    exists|err: syn::Error|
        out == #[trigger] error_trees(err) && (args_error_message(e) matches Some(m) ==> error_message(err) == m)
            && match e {
            ArgsError::InvalidTargetToken(k) => error_spans(err) == (tree_span(args, k as int), tree_span(args, k as int)),
            ArgsError::UnexpectedToken(k) => error_spans(err) == (tree_span(args, k as int), tree_span(args, k as int)),
            _ => true,
        }
}

/// A struct under `quick_deref` with its arguments.
pub struct DerefImplementation {
    pub implementor: syn::ItemStruct,
    pub args: Option<DerefTargetMetaArgs>,
}

impl DerefImplementation {
    /// The struct's name and the plan for its fields.
    pub fn plan(&self) -> (r: (String, DerefPlan))
        ensures
            r.0@ == struct_name(self.implementor),
            plan_view(r.1) == plan_spec(struct_fields(self.implementor), target_name(self.args)),
    {
        let info = read_struct(&self.implementor);
        let p = deref_plan(&info.fields.fields, &self.args);
        (info.ident, p)
    }

    /// The struct as written, followed by its `Deref` impls (see
    /// [`DerefImplementation::plan`]) or by the "Bad unit-field" error.
    pub fn to_tokens(&self) -> (r: proc_macro2::TokenStream)
        ensures
            deref_output(struct_view(self.implementor), target_name(self.args), stream_trees(r)),
    {
        let mut tokens = struct_tokens(&self.implementor);
        let (name, plan) = self.plan();
        match plan {
            DerefPlan::BadUnitField => {
                let e = error_at_fields(&self.implementor, "Bad unit-field");
                let ghost message = error_message(e);
                let ghost spans = error_spans(e);
                append_tokens(&mut tokens, error_tokens(e));
                assert(message == "Bad unit-field"@);
            },
            DerefPlan::Targets(ts) => {
                let mut text = TokenText::new();
                write_targets(&name, &ts, &mut text);
                assert(text@ =~= targets_parts(name@, targets_view(ts@)));
                text.append_to(&mut tokens);
            },
        }
        tokens
    }
}

/// Expands `quick_deref` without arguments: the target is the first field.
fn quick_deref2_empty(input: proc_macro2::TokenStream) -> (r: proc_macro2::TokenStream)
    ensures
        deref_expansion(input, None, stream_trees(r)),
{
    match parse_item_struct(input) {
        Err(e) => error_tokens(e),
        Ok(implementor) => DerefImplementation { implementor, args: None }.to_tokens(),
    }
}

/// Expands `quick_deref` with arguments: the arguments are parsed first, and
/// a refusal of either the arguments or the struct becomes a compile error.
fn quick_deref2_with_args(args: proc_macro2::TokenStream, input: proc_macro2::TokenStream) -> (r: proc_macro2::TokenStream)
    ensures
        match parse_args(stream_args(args)) {
            Ok(p) => deref_expansion(input, Some(p.1), stream_trees(r)),
            Err(e) => args_refused(args, e, stream_trees(r)),
        },
{
    let args = match DerefTargetMetaArgs::parse(args) {
        Err(e) => return error_tokens(e),
        Ok(a) => a,
    };
    match parse_item_struct(input) {
        Err(e) => error_tokens(e),
        Ok(implementor) => DerefImplementation { implementor, args: Some(args) }.to_tokens(),
    }
}

/// Expands `quick_deref`: with no arguments the target is the first field,
/// otherwise the arguments name it.
pub fn quick_deref2(args: proc_macro2::TokenStream, input: proc_macro2::TokenStream) -> (r: proc_macro2::TokenStream)
    ensures
        stream_trees(args).len() == 0 ==> deref_expansion(input, None, stream_trees(r)),
        stream_trees(args).len() != 0 ==> match parse_args(stream_args(args)) {
            Ok(p) => deref_expansion(input, Some(p.1), stream_trees(r)),
            Err(e) => args_refused(args, e, stream_trees(r)),
        },
{
    if tokens_are_empty(&args) {
        quick_deref2_empty(input)
    } else {
        quick_deref2_with_args(args, input)
    }
}

} // verus!
