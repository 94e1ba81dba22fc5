//! Code generation for three attribute macros: `quick_default` (a `Default`
//! impl whose field values come from `#[default(..)]` attributes), `quick_deref`
//! (a `Deref` impl to a chosen field) and `quick_def` (a `Deref` impl to the
//! first field accepted as a deref target).
//!
//! The decisions the macros make are written over a plain model of the input
//! struct and proved against their contracts; parsing and printing of Rust
//! syntax is done by `syn`, `quote` and `proc-macro2` through the small
//! trusted bridge in [`syntax`].
use vstd::prelude::*;

pub mod def_macro;
pub mod default_expr;
pub mod default_impl;
pub mod deref_impl;
pub mod laws;
pub mod model;
pub mod reader;
pub mod syntax;
pub mod text;

verus! {

/// A list of numbers that dereferences to its vector, as `quick_def`
/// generates for its single field.
pub struct WrappedIterator {
    inner: Vec<u32>,
}

impl View for WrappedIterator {
    type V = Seq<u32>;

    closed spec fn view(&self) -> Seq<u32> {
        self.inner@
    }
}

impl core::ops::Deref for WrappedIterator {
    type Target = Vec<u32>;

    fn deref(&self) -> (r: &Vec<u32>)
        ensures
            r@ == self@,
    {
        &self.inner
    }
}

/// Adds two numbers.
pub fn add(left: u64, right: u64) -> (sum: u64)
    requires
        left + right <= u64::MAX,
    ensures
        sum == left + right,
{
    left + right
}

} // verus!
