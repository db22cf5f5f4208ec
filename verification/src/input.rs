//! The subject of a derivation: an already-parsed type declaration and the
//! path of the trait being implemented, with every name and type
//! expression interned to a plain handle. Each type carries a
//! mathematical view that the library's contracts are stated over.

use vstd::prelude::*;
use crate::support::GenericKind;
use crate::tokens::Tok;

verus! {

/// The span handle that stands for a position chosen by the caller rather
/// than one read from the declaration.
pub const CALL_SITE: u64 = 0;

/// One field of a struct, union or enum variant: an optional name, the
/// declared type expression, and its source position.
#[derive(Clone, Copy, PartialEq, Eq, Debug)]
pub struct FieldDef {
    pub ident: Option<u64>,
    pub ty: u64,
    pub span: u64,
}

/// The three shapes a field list may take.
#[derive(Clone, Copy, PartialEq, Eq, Structural, Debug)]
pub enum FieldStyle {
    Named,
    Unnamed,
    Unit,
}

/// A field list, in one of the three shapes Rust declarations allow.
#[derive(Clone, PartialEq, Eq, Debug)]
pub enum Fields {
    Named(Vec<FieldDef>),
    Unnamed(Vec<FieldDef>),
    Unit,
}

/// The mathematical view of a field list: its shape and its fields in
/// declaration order.
#[verifier::ext_equal]
pub struct FieldsView {
    pub style: FieldStyle,
    pub fields: Seq<FieldDef>,
}

impl View for Fields {
    type V = FieldsView;

    open spec fn view(&self) -> FieldsView {
        match self {
            Fields::Named(fs) => FieldsView { style: FieldStyle::Named, fields: fs@ },
            Fields::Unnamed(fs) => FieldsView { style: FieldStyle::Unnamed, fields: fs@ },
            Fields::Unit => FieldsView { style: FieldStyle::Unit, fields: Seq::empty() },
        }
    }
}

/// One variant of an enum declaration.
#[derive(Clone, PartialEq, Eq, Debug)]
pub struct VariantDef {
    pub ident: u64,
    pub fields: Fields,
    pub span: u64,
}

/// The mathematical view of one enum variant.
#[verifier::ext_equal]
pub struct VariantView {
    pub ident: u64,
    pub fields: FieldsView,
    pub span: u64,
}

impl View for VariantDef {
    type V = VariantView;

    open spec fn view(&self) -> VariantView {
        VariantView { ident: self.ident, fields: self.fields@, span: self.span }
    }
}

/// One generic parameter of the declaration. Only type parameters carry
/// bounds; a bound is an interned trait expression.
#[derive(Clone, PartialEq, Eq, Debug)]
pub enum GenericParam {
    Type { ident: u64, bounds: Vec<u64>, span: u64 },
    Lifetime { ident: u64, span: u64 },
    Const { ident: u64, span: u64 },
}

/// The mathematical view of one generic parameter.
#[verifier::ext_equal]
pub enum ParamView {
    Type { ident: u64, bounds: Seq<u64>, span: u64 },
    Lifetime { ident: u64, span: u64 },
    Const { ident: u64, span: u64 },
}

impl View for GenericParam {
    type V = ParamView;

    open spec fn view(&self) -> ParamView {
        match self {
            GenericParam::Type { ident, bounds, span } => ParamView::Type {
                ident: *ident,
                bounds: bounds@,
                span: *span,
            },
            GenericParam::Lifetime { ident, span } => ParamView::Lifetime {
                ident: *ident,
                span: *span,
            },
            GenericParam::Const { ident, span } => ParamView::Const { ident: *ident, span: *span },
        }
    }
}

/// The kind of one generic parameter.
pub open spec fn s_param_kind(p: ParamView) -> GenericKind {
    match p {
        ParamView::Type { .. } => GenericKind::Type,
        ParamView::Lifetime { .. } => GenericKind::Lifetime,
        ParamView::Const { .. } => GenericKind::Const,
    }
}

/// The source position of one generic parameter.
pub open spec fn s_param_span(p: ParamView) -> u64 {
    match p {
        ParamView::Type { span, .. } => span,
        ParamView::Lifetime { span, .. } => span,
        ParamView::Const { span, .. } => span,
    }
}

/// The views of a parameter list, in order.
pub open spec fn s_param_views(ps: Seq<GenericParam>) -> Seq<ParamView> {
    ps.map_values(|p: GenericParam| p@)
}

/// The views of a predicate list, in order.
pub open spec fn s_pred_views(ps: Seq<Vec<Tok>>) -> Seq<Seq<Tok>> {
    ps.map_values(|p: Vec<Tok>| p@)
}

/// The declaration's generic parameter list and its `where` clause, each
/// predicate kept as the tokens it was written with.
#[derive(Clone, PartialEq, Eq, Debug)]
pub struct Generics {
    pub params: Vec<GenericParam>,
    pub where_preds: Vec<Vec<Tok>>,
}

/// The mathematical view of a generics list.
#[verifier::ext_equal]
pub struct GenericsView {
    pub params: Seq<ParamView>,
    pub where_preds: Seq<Seq<Tok>>,
}

impl View for Generics {
    type V = GenericsView;

    open spec fn view(&self) -> GenericsView {
        GenericsView {
            params: s_param_views(self.params@),
            where_preds: s_pred_views(self.where_preds@),
        }
    }
}

/// Taking views commutes with appending one parameter.
pub proof fn lemma_param_views_push(s: Seq<GenericParam>, p: GenericParam)
    ensures
        s_param_views(s.push(p)) =~= s_param_views(s).push(p@),
{
}

/// The views of a variant list, in order.
pub open spec fn s_variant_views(vs: Seq<VariantDef>) -> Seq<VariantView> {
    vs.map_values(|v: VariantDef| v@)
}

/// The data payload of a declaration: exactly one of struct fields, enum
/// variants, or union fields.
#[derive(Clone, PartialEq, Eq, Debug)]
pub enum Data {
    Struct(Fields),
    Enum(Vec<VariantDef>),
    Union(Vec<FieldDef>),
}

/// The mathematical view of a data payload.
#[verifier::ext_equal]
pub enum DataView {
    Struct(FieldsView),
    Enum(Seq<VariantView>),
    Union(Seq<FieldDef>),
}

impl View for Data {
    type V = DataView;

    open spec fn view(&self) -> DataView {
        match self {
            Data::Struct(fs) => DataView::Struct(fs@),
            Data::Enum(vs) => DataView::Enum(s_variant_views(vs@)),
            Data::Union(fs) => DataView::Union(fs@),
        }
    }
}

/// A parsed type declaration: its name, generics, data payload and span.
#[derive(Clone, PartialEq, Eq, Debug)]
pub struct DeriveInput {
    pub ident: u64,
    pub generics: Generics,
    pub data: Data,
    pub span: u64,
}

/// The mathematical view of a declaration.
#[verifier::ext_equal]
pub struct InputView {
    pub ident: u64,
    pub generics: GenericsView,
    pub data: DataView,
    pub span: u64,
}

impl View for DeriveInput {
    type V = InputView;

    open spec fn view(&self) -> InputView {
        InputView {
            ident: self.ident,
            generics: self.generics@,
            data: self.data@,
            span: self.span,
        }
    }
}

/// One generic argument written on the trait path itself. Only lifetime
/// arguments can be substituted into the generated implementation header.
#[derive(Clone, Copy, PartialEq, Eq, Structural, Debug)]
pub enum GenericArg {
    Lifetime(u64),
    Other(u64),
}

/// The path of the trait being implemented: its segments in order, and
/// any generic arguments written on the final segment.
#[derive(Clone, PartialEq, Eq, Debug)]
pub struct TraitPath {
    pub segments: Vec<u64>,
    pub args: Vec<GenericArg>,
}

/// The mathematical view of a trait path.
#[verifier::ext_equal]
pub struct PathView {
    pub segments: Seq<u64>,
    pub args: Seq<GenericArg>,
}

impl View for TraitPath {
    type V = PathView;

    open spec fn view(&self) -> PathView {
        PathView { segments: self.segments@, args: self.args@ }
    }
}

impl Fields {
    /// An owned copy of the fields, in declaration order; empty for the
    /// unit shape.
    pub fn field_defs(&self) -> (r: Vec<FieldDef>)
        ensures
            r@ == self@.fields,
    {
        let mut out: Vec<FieldDef> = Vec::new();
        match self {
            Fields::Named(fs) => {
                out = copy_field_defs(fs);
            },
            Fields::Unnamed(fs) => {
                out = copy_field_defs(fs);
            },
            Fields::Unit => {},
        }
        out
    }

    /// A fresh copy of the field list.
    pub fn duplicate(&self) -> (r: Fields)
        ensures
            r@ == self@,
    {
        match self {
            Fields::Named(fs) => Fields::Named(copy_field_defs(fs)),
            Fields::Unnamed(fs) => Fields::Unnamed(copy_field_defs(fs)),
            Fields::Unit => Fields::Unit,
        }
    }
}

/// A fresh copy of a field vector.
pub fn copy_field_defs(src: &Vec<FieldDef>) -> (r: Vec<FieldDef>)
    ensures
        r@ == src@,
{
    let mut out: Vec<FieldDef> = Vec::new();
    let mut i: usize = 0;
    while i < src.len()
        invariant
            i <= src.len(),
            out@ == src@.take(i as int),
        decreases src.len() - i,
    {
        out.push(src[i]);
        proof {
            assert(src@.take(i + 1 as int) =~= src@.take(i as int).push(src@[i as int]));
        }
        i = i + 1;
    }
    proof {
        assert(src@.take(src@.len() as int) =~= src@);
    }
    out
}

/// A fresh copy of a handle vector.
pub fn copy_syms(src: &Vec<u64>) -> (r: Vec<u64>)
    ensures
        r@ == src@,
{
    let mut out: Vec<u64> = Vec::new();
    let mut i: usize = 0;
    while i < src.len()
        invariant
            i <= src.len(),
            out@ == src@.take(i as int),
        decreases src.len() - i,
    {
        out.push(src[i]);
        proof {
            assert(src@.take(i + 1 as int) =~= src@.take(i as int).push(src@[i as int]));
        }
        i = i + 1;
    }
    proof {
        assert(src@.take(src@.len() as int) =~= src@);
    }
    out
}

impl GenericParam {
    /// A fresh copy of the parameter.
    pub fn duplicate(&self) -> (r: GenericParam)
        ensures
            r@ == self@,
    {
        match self {
            GenericParam::Type { ident, bounds, span } => GenericParam::Type {
                ident: *ident,
                bounds: copy_syms(bounds),
                span: *span,
            },
            GenericParam::Lifetime { ident, span } => GenericParam::Lifetime {
                ident: *ident,
                span: *span,
            },
            GenericParam::Const { ident, span } => GenericParam::Const {
                ident: *ident,
                span: *span,
            },
        }
    }
}

impl VariantDef {
    /// A fresh copy of the variant.
    pub fn duplicate(&self) -> (r: VariantDef)
        ensures
            r@ == self@,
    {
        VariantDef { ident: self.ident, fields: self.fields.duplicate(), span: self.span }
    }
}

} // verus!
