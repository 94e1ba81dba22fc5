# quick_macros

Code generation for three attribute macros on structs:

- `quick_default` — a `Default` impl, carrying the struct's generics (each
  type parameter bound by `Default`), whose
  field values come from `#[default(value)]` field attributes (other fields
  get `::std::default::Default::default()`; other attributes stay);
- `quick_deref` — a `Deref` impl to the first field, or to the field named
  by `#[quick_deref(name)]` / `#[quick_deref(target = name)]`;
- `quick_def` — a `Deref` impl to the first field that the deref-target
  receiver accepts; reading its arguments and input is in the library, the
  receiver's per-field verdict (a `darling` derive) in `app/`.

Layout:

- `src/model.rs` — the plain model of a struct definition the macros read;
- `src/default_impl.rs`, `src/default_expr.rs` — `quick_default`;
- `src/deref_impl.rs` — `quick_deref`, including its argument grammar;
- `src/def_macro.rs` — `quick_def`;
- `src/text.rs` — generated code as token texts;
- `src/laws.rs` — properties spanning several functions;
- `src/syntax.rs`, `src/reader.rs` — the trusted bridge to `syn`, `quote`
  and `proc-macro2`, and the reading of the model through it;
- `app/lib.rs` — the macro entry points and the `darling` receivers. The
  `#[proc_macro_attribute]` registrations belong to a `proc-macro` crate,
  which forwards to these functions.
