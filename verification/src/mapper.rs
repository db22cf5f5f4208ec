//! The mapping pipeline's strategy slots. Each registered function holds
//! one strategy per pipeline position; a strategy is plain data, and its
//! output on a given input is fixed by a spec function here.

use vstd::prelude::*;
use crate::input::FieldDef;
use crate::tokens::Tok;

verus! {

/// The function-level wrapper: turns a synthesized body expression into a
/// complete method definition.
#[derive(Clone, PartialEq, Eq, Debug)]
pub enum FnMapper {
    /// Hand the body through unchanged.
    Identity,
    /// Emit the given header tokens, then the body in a brace block.
    Wrap(Vec<Tok>),
}

/// The mathematical view of a function-level wrapper.
#[verifier::ext_equal]
pub enum FnMapperView {
    Identity,
    Wrap(Seq<Tok>),
}

impl View for FnMapper {
    type V = FnMapperView;

    open spec fn view(&self) -> FnMapperView {
        match self {
            FnMapper::Identity => FnMapperView::Identity,
            FnMapper::Wrap(h) => FnMapperView::Wrap(h@),
        }
    }
}

/// The struct-level mapper: produces the aggregate body for a struct.
#[derive(Clone, PartialEq, Eq, Debug)]
pub enum StructMapper {
    /// Concatenate the field mapper's output over every field, in order.
    Default,
    /// Ignore the data and emit the given tokens.
    Constant(Vec<Tok>),
}

/// The mathematical view of a struct-level mapper.
#[verifier::ext_equal]
pub enum StructMapperView {
    Default,
    Constant(Seq<Tok>),
}

impl View for StructMapper {
    type V = StructMapperView;

    open spec fn view(&self) -> StructMapperView {
        match self {
            StructMapper::Default => StructMapperView::Default,
            StructMapper::Constant(ts) => StructMapperView::Constant(ts@),
        }
    }
}

/// The enum-level mapper: produces the aggregate body for an enum.
#[derive(Clone, PartialEq, Eq, Debug)]
pub enum EnumMapper {
    /// A full `match self` with one arm per variant, in order, each
    /// destructuring the variant's fields and delegating the arm body to
    /// the variant mapper.
    Default,
    /// Concatenate the variant mapper's output over every variant without
    /// constructing a match; for methods that do not dispatch on `self`.
    Null,
    /// Ignore the data and emit the given tokens.
    Constant(Vec<Tok>),
}

/// The mathematical view of an enum-level mapper.
#[verifier::ext_equal]
pub enum EnumMapperView {
    Default,
    Null,
    Constant(Seq<Tok>),
}

impl View for EnumMapper {
    type V = EnumMapperView;

    open spec fn view(&self) -> EnumMapperView {
        match self {
            EnumMapper::Default => EnumMapperView::Default,
            EnumMapper::Null => EnumMapperView::Null,
            EnumMapper::Constant(ts) => EnumMapperView::Constant(ts@),
        }
    }
}

/// The variant-level mapper: produces one arm body.
#[derive(Clone, PartialEq, Eq, Debug)]
pub enum VariantMapper {
    /// Concatenate the field mapper's output over the variant's fields,
    /// wrapped in a brace block.
    Default,
    /// Ignore the variant and emit the given tokens.
    Constant(Vec<Tok>),
}

/// The mathematical view of a variant-level mapper.
#[verifier::ext_equal]
pub enum VariantMapperView {
    Default,
    Constant(Seq<Tok>),
}

impl View for VariantMapper {
    type V = VariantMapperView;

    open spec fn view(&self) -> VariantMapperView {
        match self {
            VariantMapper::Default => VariantMapperView::Default,
            VariantMapper::Constant(ts) => VariantMapperView::Constant(ts@),
        }
    }
}

/// The field-level mapper. There is no usable default: a generator must
/// supply one, or a mapper above must short-circuit before any field is
/// reached.
#[derive(Clone, PartialEq, Eq, Debug)]
pub enum FieldMapper {
    /// The baseline stub: reaching it is a fatal programming error.
    Unset,
    /// Emit the field's bound name: its identifier, or the positional
    /// binding for an unnamed field.
    EmitName,
    /// Ignore the field and emit the given tokens.
    Constant(Vec<Tok>),
}

/// The mathematical view of a field-level mapper.
#[verifier::ext_equal]
pub enum FieldMapperView {
    Unset,
    EmitName,
    Constant(Seq<Tok>),
}

impl View for FieldMapper {
    type V = FieldMapperView;

    open spec fn view(&self) -> FieldMapperView {
        match self {
            FieldMapper::Unset => FieldMapperView::Unset,
            FieldMapper::EmitName => FieldMapperView::EmitName,
            FieldMapper::Constant(ts) => FieldMapperView::Constant(ts@),
        }
    }
}

/// The optional per-type-parameter bound mapper: for every type parameter
/// `T` of the declaration it yields the `where` predicate `T: bound`.
#[derive(Clone, Copy, PartialEq, Eq, Structural, Debug)]
pub struct BoundMapper {
    pub bound: u64,
}

/// The name a pattern binds for field `i`: the field's identifier, or the
/// synthesized positional binding for an unnamed field.
pub open spec fn s_bound_name(f: FieldDef, i: usize) -> Seq<Tok> {
    match f.ident {
        Some(id) => seq![Tok::Ident(id)],
        None => seq![Tok::Binding(i)],
    }
}

/// The output of one field-mapper strategy on the field at position `i`.
/// The unset stub has no output: it is never invoked.
pub open spec fn s_field_out(fm: FieldMapperView, f: FieldDef, i: usize, matched: bool) -> Seq<
    Tok,
> {
    match fm {
        FieldMapperView::Unset => Seq::empty(),
        FieldMapperView::EmitName => s_bound_name(f, i),
        FieldMapperView::Constant(ts) => ts,
    }
}

/// The output of one function-level wrapper on a synthesized body.
pub open spec fn s_wrapped_fn(f: FnMapperView, body: Seq<Tok>) -> Seq<Tok> {
    match f {
        FnMapperView::Identity => body,
        FnMapperView::Wrap(h) => h + seq![Tok::LBrace] + body + seq![Tok::RBrace],
    }
}

/// The `where` predicate the bound mapper yields for the type parameter
/// named `ident`.
pub open spec fn s_bound_pred(m: BoundMapper, ident: u64) -> Seq<Tok> {
    seq![Tok::Ident(ident), Tok::Colon, Tok::Ident(m.bound)]
}

} // verus!
