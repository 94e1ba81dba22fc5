//! The trusted bridge to `syn`, `quote` and `proc-macro2`.
//!
//! Every function here is a thin wrapper around one call into those crates
//! (plus the conversion of its argument and result); Verus believes their
//! contracts. The model types they produce are defined in [`crate::model`].
use vstd::prelude::*;
use crate::model::{AttrMeta, AttrMetaView, FieldView, FieldsShape, body_consistent};
use crate::text::joined;

verus! {

/// A stream of Rust tokens (`proc_macro2::TokenStream`).
#[verifier::external_type_specification]
#[verifier::external_body]
pub struct ExTokenStream(proc_macro2::TokenStream);

/// A parse error carrying its source span (`syn::Error`).
#[verifier::external_type_specification]
#[verifier::external_body]
pub struct ExSynError(syn::Error);

/// A source location (`proc_macro2::Span`).
#[verifier::external_type_specification]
#[verifier::external_body]
pub struct ExSpan(proc_macro2::Span);

/// A parsed struct definition (`syn::ItemStruct`).
#[verifier::external_type_specification]
#[verifier::external_body]
pub struct ExItemStruct(syn::ItemStruct);

/// A parsed outer attribute (`syn::Attribute`).
#[verifier::external_type_specification]
#[verifier::external_body]
pub struct ExAttribute(syn::Attribute);

/// A parsed meta item (`syn::Meta`).
#[verifier::external_type_specification]
#[verifier::external_body]
pub struct ExMeta(syn::Meta);

/// The delimiter of a token group (`proc_macro2::Delimiter`).
pub enum DelimiterView {
    Parenthesis,
    Brace,
    Bracket,
    Invisible,
}

/// A token tree by its structure (`proc_macro2::TokenTree`): a group with
/// its delimiter and contents, an identifier or a literal with its text, or
/// a punctuation character with whether it is joined to the next one.
pub enum TreeView {
    Group { delimiter: DelimiterView, trees: Seq<TreeView> },
    Ident(Seq<char>),
    Punct { ch: char, joint: bool },
    Literal(Seq<char>),
}

/// The name of a parsed struct, as `ToString` of its `syn::Ident` prints it.
pub uninterp spec fn struct_name(item: syn::ItemStruct) -> Seq<char>;

/// Which variant of `syn::Fields` a parsed struct's body is.
pub uninterp spec fn struct_shape_of(item: syn::ItemStruct) -> FieldsShape;

/// Whether a comma follows the last field of a parsed struct
/// (`syn::punctuated::Punctuated::trailing_punct`; `false` for a unit struct).
pub uninterp spec fn struct_trailing(item: syn::ItemStruct) -> bool;

/// The fields of a parsed struct, in order: each one's printed name, its
/// type as `quote` prints it, and its attributes' meta items.
pub uninterp spec fn struct_fields(item: syn::ItemStruct) -> Seq<FieldView>;

/// The token trees (`quote::ToTokens`) of the parts of a struct definition
/// around its fields: its outer attributes, visibility, `struct` keyword,
/// name and generic parameters; its `where` clause; and the `;` printed
/// after a tuple or unit body.
pub uninterp spec fn struct_frame(item: syn::ItemStruct) -> (Seq<TreeView>, Seq<TreeView>, Seq<TreeView>);

/// The token trees (`quote::ToTokens`) of one field, in two parts: each of
/// its attributes, and the rest (visibility, name with `:`, type).
pub struct FieldTrees {
    pub attrs: Seq<Seq<TreeView>>,
    pub rest: Seq<TreeView>,
}

/// The token trees of each field of a struct, in order.
pub uninterp spec fn struct_field_trees(item: syn::ItemStruct) -> Seq<FieldTrees>;

/// The token trees (`quote::ToTokens`) of an attribute.
pub uninterp spec fn attribute_trees(attr: syn::Attribute) -> Seq<TreeView>;

/// The span of a struct's body (`syn::spanned::Spanned::span` of its
/// `syn::Fields`).
pub uninterp spec fn fields_span(item: syn::ItemStruct) -> proc_macro2::Span;

/// The spans where an error's message starts and ends.
pub uninterp spec fn error_spans(e: syn::Error) -> (proc_macro2::Span, proc_macro2::Span);

/// The span of token tree `index` of a stream (`proc_macro2::TokenTree::span`).
pub uninterp spec fn tree_span(tokens: proc_macro2::TokenStream, index: int) -> proc_macro2::Span;

/// A struct definition as plain values.
pub struct StructView {
    pub name: Seq<char>,
    pub shape: FieldsShape,
    pub trailing: bool,
    pub fields: Seq<FieldView>,
    pub frame: (Seq<TreeView>, Seq<TreeView>, Seq<TreeView>),
    pub field_trees: Seq<FieldTrees>,
    /// The texts of `syn::Generics::split_for_impl` (see [`generics_split`]).
    pub generics: (Seq<char>, Seq<char>, Seq<Seq<char>>),
    /// The names of the type parameters.
    pub type_params: Seq<Seq<char>>,
    /// Where the body is in the source.
    pub fields_span: proc_macro2::Span,
}

/// A parsed struct definition as plain values.
pub open spec fn struct_view(item: syn::ItemStruct) -> StructView {
    StructView {
        name: struct_name(item),
        shape: struct_shape_of(item),
        trailing: struct_trailing(item),
        fields: struct_fields(item),
        frame: struct_frame(item),
        field_trees: struct_field_trees(item),
        generics: generics_split(item),
        type_params: type_params(item),
        fields_span: fields_span(item),
    }
}

/// Each field has its trees, and each attribute its trees.
pub open spec fn trees_aligned(v: StructView) -> bool {
    &&& v.field_trees.len() == v.fields.len()
    &&& forall|i: int| 0 <= i < v.fields.len() ==> (#[trigger] v.field_trees[i]).attrs.len() == v.fields[i].attrs.len()
}

/// The `,` between fields.
pub open spec fn comma_tree() -> TreeView {
    TreeView::Punct { ch: ',', joint: false }
}

/// The token trees of a field: its attributes, then the rest.
pub open spec fn field_tokens(f: FieldTrees) -> Seq<TreeView> {
    f.attrs.flatten() + f.rest
}

/// The token trees of the fields, separated by commas, with one after the
/// last when `trailing` is set (`syn::punctuated::Punctuated`'s printing).
pub open spec fn body_tokens(fs: Seq<FieldTrees>, trailing: bool) -> Seq<TreeView>
    decreases fs.len(),
{
    if fs.len() == 0 {
        Seq::empty()
    } else {
        body_tokens(fs.drop_last(), true) + field_tokens(fs.last()) + if trailing {
            seq![comma_tree()]
        } else {
            Seq::empty()
        }
    }
}

/// The token trees of a struct definition as `quote::ToTokens` prints it:
/// the frame's first part, then for named fields the `where` clause and the
/// fields in braces, for tuple fields the fields in parentheses, the
/// `where` clause and the `;`, and for a unit struct the `where` clause and
/// the `;`.
pub open spec fn printed_view(v: StructView) -> Seq<TreeView> {
    match v.shape {
        FieldsShape::Named => v.frame.0 + v.frame.1 + seq![
            TreeView::Group { delimiter: DelimiterView::Brace, trees: body_tokens(v.field_trees, v.trailing) },
        ],
        FieldsShape::Unnamed => v.frame.0 + seq![
            TreeView::Group {
                delimiter: DelimiterView::Parenthesis,
                trees: body_tokens(v.field_trees, v.trailing),
            },
        ] + v.frame.1 + v.frame.2,
        FieldsShape::Unit => v.frame.0 + v.frame.1 + v.frame.2,
    }
}

/// The meta item of a parsed attribute: its `syn::Meta` variant, and for a
/// list the path when `syn::Path::get_ident` finds one and the arguments
/// as printed tokens.
pub uninterp spec fn attribute_meta(attr: syn::Attribute) -> AttrMetaView;

/// The meta items of a sequence of parsed attributes.
pub open spec fn attr_metas(attrs: Seq<syn::Attribute>) -> Seq<AttrMetaView> {
    attrs.map_values(|a: syn::Attribute| attribute_meta(a))
}

/// Field `index` of the struct exists and has an attribute at `position`.
pub open spec fn attr_in_range(item: syn::ItemStruct, index: usize, position: usize) -> bool {
    index < struct_fields(item).len() && position < struct_fields(item)[index as int].attrs.len()
}

/// Whether `syn` reads the given token text as exactly one expression.
pub uninterp spec fn expression_parses(tokens: Seq<char>) -> bool;

/// Calls `syn::parse_str::<syn::Expr>` on `tokens`: whether the text is
/// one expression, and `syn`'s error when it is not. The contract names only
/// whether it parses; which error comes back (its message and span) is left
/// unsaid.
#[verifier::external_body]
pub(crate) fn parse_expression(tokens: &String) -> (r: Result<(), syn::Error>)
    ensures
        r is Ok == expression_parses(tokens@),
{
    syn::parse_str::<syn::Expr>(tokens).map(|_| ())
}

/// The token trees of a stream, in order.
pub uninterp spec fn stream_trees(tokens: proc_macro2::TokenStream) -> Seq<TreeView>;

/// What `syn::parse2::<syn::ItemStruct>` gives for the stream: the parsed
/// struct as plain values, or the token trees of the error's
/// `into_compile_error`.
pub uninterp spec fn struct_parse(tokens: proc_macro2::TokenStream) -> Result<StructView, Seq<TreeView>>;

/// What `syn::parse2::<syn::Ident>` gives for token tree `index` of the
/// stream alone: the identifier's text, or the token trees of the error's
/// `into_compile_error`.
pub uninterp spec fn tree_ident(tokens: proc_macro2::TokenStream, index: int) -> Result<Seq<char>, Seq<TreeView>>;

/// The character of token tree `index` of the stream when it is a
/// `proc_macro2::Punct`; `None` for other trees (or past the end).
pub uninterp spec fn tree_punct(tokens: proc_macro2::TokenStream, index: int) -> Option<char>;

/// The token trees that `str::parse::<proc_macro2::TokenStream>` lexes from
/// the text (their structure follows the Rust lexical grammar); `None` when
/// the text does not lex.
pub uninterp spec fn lexed(text: Seq<char>) -> Option<Seq<TreeView>>;

/// The token trees lexed from generated text; none when it does not lex.
pub open spec fn lexed_or_empty(text: Seq<char>) -> Seq<TreeView> {
    match lexed(text) {
        Some(trees) => trees,
        None => Seq::empty(),
    }
}

/// The token trees of generated code given as token texts: nothing when
/// there is no text, otherwise the texts joined by spaces and lexed.
pub open spec fn generated_trees(parts: Seq<Seq<char>>) -> Seq<TreeView> {
    if parts.len() == 0 {
        Seq::empty()
    } else {
        lexed_or_empty(joined(parts))
    }
}

/// The token trees of `syn::Error::into_compile_error`.
pub uninterp spec fn error_trees(e: syn::Error) -> Seq<TreeView>;

/// The message of an error, as its `Display` prints it.
pub uninterp spec fn error_message(e: syn::Error) -> Seq<char>;

/// Calls `syn::parse2::<syn::ItemStruct>` on the input tokens: the result is
/// the one named for the input, and a parsed body is one that `syn`'s parser
/// builds: named fields carry a name, tuple fields do not, a unit struct has
/// no fields, an empty body has no trailing comma.
#[verifier::external_body]
pub(crate) fn parse_item_struct(input: proc_macro2::TokenStream) -> (r: Result<syn::ItemStruct, syn::Error>)
    ensures
        match r {
            Ok(item) => struct_parse(input) == Ok::<StructView, Seq<TreeView>>(struct_view(item)),
            Err(e) => struct_parse(input) == Err::<StructView, Seq<TreeView>>(error_trees(e)),
        },
        r matches Ok(item) ==> body_consistent(
            struct_shape_of(item),
            struct_trailing(item),
            struct_fields(item),
        ),
{
    syn::parse2::<syn::ItemStruct>(input)
}

/// What `darling::ast::NestedMeta::parse_meta_list` says of a macro's
/// arguments: `None` when they are a comma-separated list of meta items,
/// otherwise the token trees of the refusal's `write_errors`.
pub uninterp spec fn meta_list_refusal(args: proc_macro2::TokenStream) -> Option<Seq<TreeView>>;

/// Calls `darling::ast::NestedMeta::parse_meta_list` on the arguments; a
/// refusal is turned into its compile errors (`darling::Error::from`, then
/// `write_errors`).
#[verifier::external_body]
pub(crate) fn meta_list_errors(args: &proc_macro2::TokenStream) -> (r: Option<proc_macro2::TokenStream>)
    ensures
        match r {
            Some(t) => meta_list_refusal(*args) == Some(stream_trees(t)),
            None => meta_list_refusal(*args) is None,
        },
{
    darling::ast::NestedMeta::parse_meta_list(args.clone()).err().map(|e| darling::Error::from(e).write_errors())
}

/// What parsing a meta item and then a struct definition from the whole
/// stream gives (`syn::parse::Parser::parse2`): the struct as plain values,
/// or the token trees of the error's `into_compile_error`.
pub uninterp spec fn receiver_parse(input: proc_macro2::TokenStream) -> Result<StructView, Seq<TreeView>>;

/// Calls `syn::parse::Parser::parse2` with a parser that reads a
/// `syn::Meta` and then a `syn::ItemStruct` (`syn::parse::ParseBuffer::parse`
/// twice), which must use up the stream.
#[verifier::external_body]
pub(crate) fn parse_meta_and_struct(input: proc_macro2::TokenStream) -> (r: Result<(syn::Meta, syn::ItemStruct), syn::Error>)
    ensures
        match r {
            Ok((_, item)) => receiver_parse(input) == Ok::<StructView, Seq<TreeView>>(struct_view(item)),
            Err(e) => receiver_parse(input) == Err::<StructView, Seq<TreeView>>(error_trees(e)),
        },
{
    syn::parse::Parser::parse2(
        |s: syn::parse::ParseStream| -> syn::Result<(syn::Meta, syn::ItemStruct)> { Ok((s.parse()?, s.parse()?)) },
        input,
    )
}

/// Calls `syn::Error::into_compile_error`: the tokens of a compile-error macro
/// invocation carrying the error's message and span.
#[verifier::external_body]
pub(crate) fn error_tokens(e: syn::Error) -> (r: proc_macro2::TokenStream)
    ensures
        stream_trees(r) == error_trees(e),
{
    e.into_compile_error()
}

/// Calls `syn::Error::new_spanned`: an error with the given message over the
/// span of `tokens`.
#[verifier::external_body]
pub(crate) fn error_spanning(tokens: &proc_macro2::TokenStream, message: &str) -> (r: syn::Error)
    ensures
        error_message(r) == message@,
{
    syn::Error::new_spanned(tokens, message)
}

/// Calls `syn::Error::new` with the span of a struct's body
/// (`syn::spanned::Spanned::span` of its fields): the message starts and ends
/// there.
#[verifier::external_body]
pub(crate) fn error_at_fields(item: &syn::ItemStruct, message: &str) -> (r: syn::Error)
    ensures
        error_message(r) == message@,
        error_spans(r) == (fields_span(*item), fields_span(*item)),
{
    syn::Error::new(syn::spanned::Spanned::span(&item.fields), message)
}

/// Calls `syn::Error::new` with the span of token tree `index` of the stream
/// (`proc_macro2::TokenTree::span`): the message starts and ends there;
/// `None` past the end.
#[verifier::external_body]
pub(crate) fn error_at_tree(tokens: &proc_macro2::TokenStream, index: usize, message: &str) -> (r: Option<syn::Error>)
    ensures
        match r {
            Some(e) => index < stream_trees(*tokens).len() && error_message(e) == message@
                && error_spans(e) == (tree_span(*tokens, index as int), tree_span(*tokens, index as int)),
            None => index >= stream_trees(*tokens).len(),
        },
{
    tokens.clone().into_iter().nth(index).map(|t| syn::Error::new(t.span(), message))
}

/// Calls `syn::parse2::<syn::Ident>` on token tree `index` of the stream
/// alone: the identifier's text or `syn`'s error; `None` past the end.
#[verifier::external_body]
pub(crate) fn parse_tree_ident(tokens: &proc_macro2::TokenStream, index: usize) -> (r: Option<Result<String, syn::Error>>)
    ensures
        match r {
            Some(Ok(s)) => index < stream_trees(*tokens).len() && tree_ident(*tokens, index as int)
                == Ok::<Seq<char>, Seq<TreeView>>(s@),
            Some(Err(e)) => index < stream_trees(*tokens).len() && tree_ident(*tokens, index as int)
                == Err::<Seq<char>, Seq<TreeView>>(error_trees(e)),
            None => index >= stream_trees(*tokens).len(),
        },
{
    let tree = tokens.clone().into_iter().nth(index)?;
    Some(syn::parse2::<syn::Ident>(tree.into()).map(|i| i.to_string()))
}

/// The character of token tree `index` of the stream when it is a
/// punctuation (`proc_macro2::Punct::as_char`); `None` otherwise.
#[verifier::external_body]
pub(crate) fn tree_punct_char(tokens: &proc_macro2::TokenStream, index: usize) -> (r: Option<char>)
    ensures
        r == tree_punct(*tokens, index as int),
{
    match tokens.clone().into_iter().nth(index) {
        Some(proc_macro2::TokenTree::Punct(p)) => Some(p.as_char()),
        _ => None,
    }
}

/// Counts the token trees of a stream (`IntoIterator` of
/// `proc_macro2::TokenStream`).
#[verifier::external_body]
pub(crate) fn tree_count(tokens: &proc_macro2::TokenStream) -> (r: usize)
    ensures
        r == stream_trees(*tokens).len(),
{
    tokens.clone().into_iter().count()
}

/// Calls `proc_macro2::TokenStream::new`.
#[verifier::external_body]
pub(crate) fn empty_tokens() -> (r: proc_macro2::TokenStream)
    ensures
        stream_trees(r) == Seq::<TreeView>::empty(),
{
    proc_macro2::TokenStream::new()
}

/// Calls `proc_macro2::TokenStream::is_empty`: whether it has no tree.
#[verifier::external_body]
pub(crate) fn tokens_are_empty(tokens: &proc_macro2::TokenStream) -> (r: bool)
    ensures
        r == (stream_trees(*tokens).len() == 0),
{
    tokens.is_empty()
}

/// Calls `str::parse::<proc_macro2::TokenStream>` on generated code.
#[verifier::external_body]
pub(crate) fn tokens_from_text(text: &String) -> (r: Option<proc_macro2::TokenStream>)
    ensures
        match r {
            Some(t) => lexed(text@) == Some(stream_trees(t)),
            None => lexed(text@) is None,
        },
{
    text.parse::<proc_macro2::TokenStream>().ok()
}

/// Calls `Extend<proc_macro2::TokenStream>::extend` of
/// `proc_macro2::TokenStream`: appends the trees of `more`.
#[verifier::external_body]
pub(crate) fn append_tokens(tokens: &mut proc_macro2::TokenStream, more: proc_macro2::TokenStream)
    ensures
        stream_trees(*final(tokens)) == stream_trees(*old(tokens)) + stream_trees(more),
{
    tokens.extend(core::iter::once(more))
}

/// Calls `quote::ToTokens::to_token_stream` on a struct definition, whose
/// `ToTokens` impl (`syn`'s `ItemStruct`, `Fields*`, `Field` and
/// `Punctuated`) prints the parts in the order [`printed_view`] gives.
#[verifier::external_body]
pub(crate) fn struct_tokens(item: &syn::ItemStruct) -> (r: proc_macro2::TokenStream)
    ensures
        stream_trees(r) == printed_view(struct_view(*item)),
{
    quote::ToTokens::to_token_stream(item)
}

/// Calls `Clone::clone` of `syn::ItemStruct`.
#[verifier::external_body]
pub(crate) fn clone_struct(item: &syn::ItemStruct) -> (r: syn::ItemStruct)
    ensures
        struct_view(r) == struct_view(*item),
{
    item.clone()
}

/// The texts of a sequence of strings.
pub open spec fn texts(v: Seq<String>) -> Seq<Seq<char>> {
    v.map_values(|s: String| s@)
}

/// The texts (`quote::ToTokens`, printed) of what
/// `syn::Generics::split_for_impl` gives for a struct's generics: the
/// parameters for an `impl` and the arguments for the type (each empty when
/// there are none), and the predicates of the `where` clause, in order.
pub uninterp spec fn generics_split(item: syn::ItemStruct) -> (Seq<char>, Seq<char>, Seq<Seq<char>>);

/// The names of a struct's type parameters (`syn::Generics::type_params`),
/// in order.
pub uninterp spec fn type_params(item: syn::ItemStruct) -> Seq<Seq<char>>;

/// Calls `syn::Generics::split_for_impl` on the struct's generics and prints
/// the `impl` parameters, the type arguments and each `where` predicate.
#[verifier::external_body]
pub(crate) fn struct_generics(item: &syn::ItemStruct) -> (r: (String, String, Vec<String>))
    ensures
        (r.0@, r.1@, texts(r.2@)) == generics_split(*item),
{
    let (i, t, w) = item.generics.split_for_impl();
    let predicates = match w {
        Some(w) => w.predicates.iter().map(|p| quote::ToTokens::to_token_stream(p).to_string()).collect(),
        None => Vec::new(),
    };
    (quote::ToTokens::to_token_stream(&i).to_string(), quote::ToTokens::to_token_stream(&t).to_string(), predicates)
}

/// Calls `syn::Generics::type_params` and gives each parameter's name
/// (`ToString` of its `syn::Ident`).
#[verifier::external_body]
pub(crate) fn struct_type_params(item: &syn::ItemStruct) -> (r: Vec<String>)
    ensures
        texts(r@) == type_params(*item),
{
    item.generics.type_params().map(|p| p.ident.to_string()).collect()
}

/// The struct's name, printed (`ToString` of `syn::Ident`).
#[verifier::external_body]
pub(crate) fn struct_ident(item: &syn::ItemStruct) -> (r: String)
    ensures
        r@ == struct_name(*item),
{
    item.ident.to_string()
}

/// Which variant of `syn::Fields` the struct's body is.
#[verifier::external_body]
pub(crate) fn struct_shape(item: &syn::ItemStruct) -> (r: FieldsShape)
    ensures
        r == struct_shape_of(*item),
        r == FieldsShape::Unit ==> struct_fields(*item).len() == 0,
{
    match &item.fields {
        syn::Fields::Named(_) => FieldsShape::Named,
        syn::Fields::Unnamed(_) => FieldsShape::Unnamed,
        syn::Fields::Unit => FieldsShape::Unit,
    }
}

/// Calls `syn::punctuated::Punctuated::trailing_punct` on the struct's
/// fields; `false` for a unit struct.
#[verifier::external_body]
pub(crate) fn struct_trailing_comma(item: &syn::ItemStruct) -> (r: bool)
    ensures
        r == struct_trailing(*item),
        r ==> struct_fields(*item).len() > 0,
{
    match &item.fields {
        syn::Fields::Named(f) => f.named.trailing_punct(),
        syn::Fields::Unnamed(f) => f.unnamed.trailing_punct(),
        syn::Fields::Unit => false,
    }
}

/// Calls `syn::punctuated::Punctuated::pop_punct` on the struct's fields:
/// removes a comma after the last field.
#[verifier::external_body]
pub(crate) fn drop_trailing_comma(item: &mut syn::ItemStruct)
    ensures
        struct_view(*final(item)) == (StructView { trailing: false, ..struct_view(*old(item)) }),
        struct_frame(*final(item)) == struct_frame(*old(item)),
{
    match &mut item.fields {
        syn::Fields::Named(f) => { f.named.pop_punct(); },
        syn::Fields::Unnamed(f) => { f.unnamed.pop_punct(); },
        syn::Fields::Unit => {},
    }
}

/// Calls `syn::Fields::len`.
#[verifier::external_body]
pub(crate) fn field_count(item: &syn::ItemStruct) -> (r: usize)
    ensures
        r == struct_fields(*item).len(),
        r == struct_field_trees(*item).len(),
{
    item.fields.len()
}

/// The name of field `index` (`ToString` of its `syn::Ident`); `None` for a
/// tuple field or an index past the end.
#[verifier::external_body]
pub(crate) fn field_ident(item: &syn::ItemStruct, index: usize) -> (r: Option<String>)
    ensures
        index < struct_fields(*item).len() ==> match r {
            Some(s) => struct_fields(*item)[index as int].ident == Some(s@),
            None => struct_fields(*item)[index as int].ident is None,
        },
        index >= struct_fields(*item).len() ==> r is None,
{
    item.fields.iter().nth(index).and_then(|f| f.ident.as_ref()).map(|i| i.to_string())
}

/// The printed type of field `index` (`quote::ToTokens` of its `syn::Type`);
/// `None` for an index past the end.
#[verifier::external_body]
pub(crate) fn field_type(item: &syn::ItemStruct, index: usize) -> (r: Option<String>)
    ensures
        index < struct_fields(*item).len() ==> match r {
            Some(t) => t@ == struct_fields(*item)[index as int].ty,
            None => false,
        },
        index >= struct_fields(*item).len() ==> r is None,
{
    item.fields.iter().nth(index).map(|f| quote::ToTokens::to_token_stream(&f.ty).to_string())
}

/// The number of attributes of field `index`; 0 past the end.
#[verifier::external_body]
pub(crate) fn field_attr_count(item: &syn::ItemStruct, index: usize) -> (r: usize)
    ensures
        index < struct_fields(*item).len() ==> r == struct_fields(*item)[index as int].attrs.len(),
        index < struct_field_trees(*item).len() ==> r == struct_field_trees(*item)[index as int].attrs.len(),
        index >= struct_fields(*item).len() ==> r == 0,
{
    item.fields.iter().nth(index).map_or(0, |f| f.attrs.len())
}

/// The meta item of attribute `position` of field `index`, as a variant of
/// `syn::Meta`; a list's path is given when `syn::Path::get_ident` finds one
/// and its arguments as printed tokens. `None` past the end.
#[verifier::external_body]
pub(crate) fn field_attr_meta(item: &syn::ItemStruct, index: usize, position: usize) -> (r: Option<
    AttrMeta,
>)
    ensures
        match r {
            Some(m) => attr_in_range(*item, index, position) && m@ == struct_fields(
                *item,
            )[index as int].attrs[position as int],
            None => !attr_in_range(*item, index, position),
        },
{
    let attr = item.fields.iter().nth(index)?.attrs.get(position)?;
    Some(match &attr.meta {
        syn::Meta::Path(_) => AttrMeta::Path,
        syn::Meta::NameValue(_) => AttrMeta::NameValue,
        syn::Meta::List(l) => AttrMeta::List {
            ident: l.path.get_ident().map(|i| i.to_string()),
            tokens: l.tokens.to_string(),
        },
    })
}

/// A copy (`Clone`) of attribute `position` of field `index`; `None` past
/// the end.
#[verifier::external_body]
pub(crate) fn field_attr(item: &syn::ItemStruct, index: usize, position: usize) -> (r: Option<
    syn::Attribute,
>)
    ensures
        match r {
            Some(a) => attr_in_range(*item, index, position) && attribute_meta(a) == struct_fields(
                *item,
            )[index as int].attrs[position as int] && (index < struct_field_trees(*item).len()
                ==> attribute_trees(a) == struct_field_trees(*item)[index as int].attrs[position as int]),
            None => !attr_in_range(*item, index, position),
        },
{
    item.fields.iter().nth(index).and_then(|f| f.attrs.get(position)).cloned()
}

/// The trees of a sequence of parsed attributes.
pub open spec fn attr_trees(attrs: Seq<syn::Attribute>) -> Seq<Seq<TreeView>> {
    attrs.map_values(|a: syn::Attribute| attribute_trees(a))
}

/// Replaces the attributes of field `index`; does nothing past the end.
/// Nothing else of the definition changes.
#[verifier::external_body]
pub(crate) fn set_field_attrs(item: &mut syn::ItemStruct, index: usize, attrs: Vec<syn::Attribute>)
    ensures
        index < struct_fields(*old(item)).len() && index < struct_field_trees(*old(item)).len() ==> struct_view(
            *final(item),
        ) == (StructView {
            fields: struct_fields(*old(item)).update(
                index as int,
                FieldView { attrs: attr_metas(attrs@), ..struct_fields(*old(item))[index as int] },
            ),
            field_trees: struct_field_trees(*old(item)).update(
                index as int,
                FieldTrees { attrs: attr_trees(attrs@), ..struct_field_trees(*old(item))[index as int] },
            ),
            ..struct_view(*old(item))
        }),
        index >= struct_fields(*old(item)).len() ==> struct_view(*final(item)) == struct_view(*old(item)),
{
    if let Some(f) = item.fields.iter_mut().nth(index) {
        f.attrs = attrs;
    }
}

} // verus!
