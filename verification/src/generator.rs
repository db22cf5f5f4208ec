//! The generator engine: validation of the declaration's shape against the
//! capability sets, traversal of its structure through the mapping
//! pipeline, and synthesis of the implementation tokens.

use vstd::prelude::*;
use crate::diagnostic::DataShape;
use crate::diagnostic::DiagKind;
use crate::diagnostic::Diagnostic;
use crate::diagnostic::EmittedDiagnostic;
use crate::diagnostic::Level;
use crate::field::Field;
use crate::input::CALL_SITE;
use crate::input::Data;
use crate::input::DeriveInput;
use crate::input::FieldDef;
use crate::input::FieldStyle;
use crate::input::Fields;
use crate::input::FieldsView;
use crate::input::GenericArg;
use crate::input::GenericParam;
use crate::input::ParamView;
use crate::input::TraitPath;
use crate::input::VariantDef;
use crate::input::VariantView;
use crate::input::s_param_kind;
use crate::input::s_param_span;
use crate::input::s_param_views;
use crate::input::s_variant_views;
use crate::input::lemma_param_views_push;
use crate::mapper::BoundMapper;
use crate::mapper::EnumMapper;
use crate::mapper::EnumMapperView;
use crate::mapper::FieldMapper;
use crate::mapper::FieldMapperView;
use crate::mapper::FnMapper;
use crate::mapper::StructMapper;
use crate::mapper::StructMapperView;
use crate::mapper::VariantMapper;
use crate::mapper::VariantMapperView;
use crate::mapper::s_bound_name;
use crate::mapper::s_bound_pred;
use crate::mapper::s_field_out;
use crate::mapper::s_wrapped_fn;
use crate::support::DATA_ENUM;
use crate::support::DATA_NONE;
use crate::support::DATA_STRUCT;
use crate::support::DATA_UNION;
use crate::support::GENERIC_NONE;
use crate::support::DataSupport;
use crate::support::GenericKind;
use crate::support::GenericSupport;
use crate::tokens::Tok;
use crate::tokens::copy_toks;
use crate::tokens::push_toks;
use crate::tokens::s_concat;
use crate::tokens::s_concat_from;
use crate::validator::Validator;
use crate::validator::s_verdict;
use crate::variant::Variant;
use crate::support::lemma_generic_supports_kind;
use vstd::pervasive::arbitrary;

verus! {

/// A generator for one derivation: the parsed declaration and trait path,
/// the capability sets gating validation, the validators, and the mapping
/// pipeline. The pipeline holds one strategy of each kind per registered
/// function; the five lists grow in lock step.
#[derive(Clone, PartialEq, Eq, Debug)]
pub struct DeriveGenerator {
    pub input: DeriveInput,
    pub trait_path: TraitPath,
    pub generic_support: GenericSupport,
    pub data_support: DataSupport,
    pub enum_validator: Validator,
    pub struct_validator: Validator,
    pub type_generic_mapper: Option<BoundMapper>,
    pub functions: Vec<FnMapper>,
    pub enum_mappers: Vec<EnumMapper>,
    pub struct_mappers: Vec<StructMapper>,
    pub variant_mappers: Vec<VariantMapper>,
    pub field_mappers: Vec<FieldMapper>,
}

/// The fields of a generator that registration and overrides never touch.
pub open spec fn same_base(a: DeriveGenerator, b: DeriveGenerator) -> bool {
    &&& a.input == b.input
    &&& a.trait_path == b.trait_path
    &&& a.generic_support == b.generic_support
    &&& a.data_support == b.data_support
    &&& a.enum_validator == b.enum_validator
    &&& a.struct_validator == b.struct_validator
    &&& a.type_generic_mapper == b.type_generic_mapper
}

impl DeriveGenerator {
    /// The pipeline lists hold exactly one slot of each kind per
    /// registered function.
    pub open spec fn wf(self) -> bool {
        &&& self.enum_mappers@.len() == self.functions@.len()
        &&& self.struct_mappers@.len() == self.functions@.len()
        &&& self.variant_mappers@.len() == self.functions@.len()
        &&& self.field_mappers@.len() == self.functions@.len()
    }

    /// A fresh generator for one declaration and trait: nothing is
    /// accepted, validators accept everything, and no function is
    /// registered yet.
    pub fn build_for(input: DeriveInput, trait_path: TraitPath) -> (r: DeriveGenerator)
        ensures
            r.input == input,
            r.trait_path == trait_path,
            r.generic_support.bits == GENERIC_NONE,
            r.data_support.bits == DATA_NONE,
            r.enum_validator == Validator::Accept,
            r.struct_validator == Validator::Accept,
            r.type_generic_mapper is None,
            r.functions@.len() == 0,
            r.enum_mappers@.len() == 0,
            r.struct_mappers@.len() == 0,
            r.variant_mappers@.len() == 0,
            r.field_mappers@.len() == 0,
            r.wf(),
    {
        DeriveGenerator {
            input,
            trait_path,
            generic_support: GenericSupport { bits: GENERIC_NONE },
            data_support: DataSupport { bits: DATA_NONE },
            enum_validator: Validator::Accept,
            struct_validator: Validator::Accept,
            type_generic_mapper: None,
            functions: Vec::new(),
            enum_mappers: Vec::new(),
            struct_mappers: Vec::new(),
            variant_mappers: Vec::new(),
            field_mappers: Vec::new(),
        }
    }

    /// Declare which generic-parameter kinds this generator accepts.
    pub fn generic_support(&mut self, support: GenericSupport)
        ensures
            *final(self) == (DeriveGenerator { generic_support: support, ..*old(self) }),
    {
        self.generic_support = support;
    }

    /// Declare which data kinds this generator accepts.
    pub fn data_support(&mut self, support: DataSupport)
        ensures
            *final(self) == (DeriveGenerator { data_support: support, ..*old(self) }),
    {
        self.data_support = support;
    }

    /// Install the custom enum validator.
    pub fn validate_enum(&mut self, f: Validator)
        ensures
            *final(self) == (DeriveGenerator { enum_validator: f, ..*old(self) }),
    {
        self.enum_validator = f;
    }

    /// Install the custom struct validator.
    pub fn validate_struct(&mut self, f: Validator)
        ensures
            *final(self) == (DeriveGenerator { struct_validator: f, ..*old(self) }),
    {
        self.struct_validator = f;
    }

    /// Install the optional per-type-parameter bound mapper.
    pub fn map_type_generic(&mut self, f: BoundMapper)
        ensures
            *final(self) == (DeriveGenerator { type_generic_mapper: Some(f), ..*old(self) }),
    {
        self.type_generic_mapper = Some(f);
    }

    /// Append one default slot to each of the four mapper lists.
    pub fn push_default_mappers(&mut self)
        ensures
            final(self).enum_mappers@ == old(self).enum_mappers@.push(EnumMapper::Default),
            final(self).struct_mappers@ == old(self).struct_mappers@.push(StructMapper::Default),
            final(self).variant_mappers@ == old(self).variant_mappers@.push(
                VariantMapper::Default,
            ),
            final(self).field_mappers@ == old(self).field_mappers@.push(FieldMapper::Unset),
            final(self).functions@ == old(self).functions@,
            same_base(*final(self), *old(self)),
    {
        self.enum_mappers.push(EnumMapper::Default);
        self.struct_mappers.push(StructMapper::Default);
        self.variant_mappers.push(VariantMapper::Default);
        self.field_mappers.push(default_field_mapper());
    }

    /// Register one function to generate. Every mapper list grows by
    /// exactly one slot, each starting as its documented default.
    pub fn function(&mut self, f: FnMapper)
        ensures
            final(self).functions@ == old(self).functions@.push(f),
            final(self).enum_mappers@ == old(self).enum_mappers@.push(EnumMapper::Default),
            final(self).struct_mappers@ == old(self).struct_mappers@.push(StructMapper::Default),
            final(self).variant_mappers@ == old(self).variant_mappers@.push(
                VariantMapper::Default,
            ),
            final(self).field_mappers@ == old(self).field_mappers@.push(FieldMapper::Unset),
            same_base(*final(self), *old(self)),
            old(self).wf() ==> final(self).wf(),
    {
        self.functions.push(f);
        self.push_default_mappers();
    }

    /// Override the most recently registered function's variant mapper.
    /// Before any function is registered this is a no-op.
    pub fn map_variant(&mut self, f: VariantMapper)
        ensures
            old(self).variant_mappers@.len() == 0 ==> *final(self) == *old(self),
            old(self).variant_mappers@.len() > 0 ==> final(self).variant_mappers@ == old(
                self,
            ).variant_mappers@.update(old(self).variant_mappers@.len() - 1, f),
            final(self).functions@ == old(self).functions@,
            final(self).enum_mappers@ == old(self).enum_mappers@,
            final(self).struct_mappers@ == old(self).struct_mappers@,
            final(self).field_mappers@ == old(self).field_mappers@,
            same_base(*final(self), *old(self)),
    {
        if self.variant_mappers.len() != 0 {
            let ghost prior = self.variant_mappers@;
            let _ = self.variant_mappers.pop();
            self.variant_mappers.push(f);
            proof {
                assert(prior.drop_last().push(f) =~= prior.update(prior.len() - 1, f));
            }
        }
    }

    /// Override the most recently registered function's enum mapper.
    /// Before any function is registered this is a no-op.
    pub fn map_enum(&mut self, f: EnumMapper)
        ensures
            old(self).enum_mappers@.len() == 0 ==> *final(self) == *old(self),
            old(self).enum_mappers@.len() > 0 ==> final(self).enum_mappers@ == old(
                self,
            ).enum_mappers@.update(old(self).enum_mappers@.len() - 1, f),
            final(self).functions@ == old(self).functions@,
            final(self).struct_mappers@ == old(self).struct_mappers@,
            final(self).variant_mappers@ == old(self).variant_mappers@,
            final(self).field_mappers@ == old(self).field_mappers@,
            same_base(*final(self), *old(self)),
    {
        if self.enum_mappers.len() != 0 {
            let ghost prior = self.enum_mappers@;
            let _ = self.enum_mappers.pop();
            self.enum_mappers.push(f);
            proof {
                assert(prior.drop_last().push(f) =~= prior.update(prior.len() - 1, f));
            }
        }
    }

    /// Override the most recently registered function's field mapper.
    /// Before any function is registered this is a no-op.
    pub fn map_field(&mut self, f: FieldMapper)
        ensures
            old(self).field_mappers@.len() == 0 ==> *final(self) == *old(self),
            old(self).field_mappers@.len() > 0 ==> final(self).field_mappers@ == old(
                self,
            ).field_mappers@.update(old(self).field_mappers@.len() - 1, f),
            final(self).functions@ == old(self).functions@,
            final(self).enum_mappers@ == old(self).enum_mappers@,
            final(self).struct_mappers@ == old(self).struct_mappers@,
            final(self).variant_mappers@ == old(self).variant_mappers@,
            same_base(*final(self), *old(self)),
    {
        if self.field_mappers.len() != 0 {
            let ghost prior = self.field_mappers@;
            let _ = self.field_mappers.pop();
            self.field_mappers.push(f);
            proof {
                assert(prior.drop_last().push(f) =~= prior.update(prior.len() - 1, f));
            }
        }
    }

    /// The variant mapper current traversal uses: the most recently
    /// registered function's slot.
    pub fn variant_mapper(&self) -> (r: &VariantMapper)
        requires
            self.variant_mappers@.len() > 0,
        ensures
            *r == self.variant_mappers@.last(),
    {
        &self.variant_mappers[self.variant_mappers.len() - 1]
    }

    /// The field mapper current traversal uses: the most recently
    /// registered function's slot.
    pub fn field_mapper(&self) -> (r: &FieldMapper)
        requires
            self.field_mappers@.len() > 0,
        ensures
            *r == self.field_mappers@.last(),
    {
        &self.field_mappers[self.field_mappers.len() - 1]
    }
}

/// The baseline field-mapper slot a fresh registration starts with: the
/// unusable stub. A generator must override it, or configure a mapper
/// above it that short-circuits, before running.
pub fn default_field_mapper() -> (r: FieldMapper)
    ensures
        r == FieldMapper::Unset,
{
    FieldMapper::Unset
}

/// The field mapper's output over each field of a list, in order.
pub open spec fn s_field_pieces(fm: FieldMapperView, fields: Seq<FieldDef>, matched: bool) -> Seq<
    Seq<Tok>,
> {
    Seq::new(fields.len(), |i: int| s_field_out(fm, fields[i], i as usize, matched))
}

/// The default struct traversal: the field mapper's output concatenated
/// over every field, in declared order.
pub open spec fn s_map_fields(fm: FieldMapperView, fields: Seq<FieldDef>, matched: bool) -> Seq<
    Tok,
> {
    s_concat(s_field_pieces(fm, fields, matched))
}

/// The default variant traversal: the field mapper's output concatenated
/// over the variant's fields, wrapped in a brace block.
pub open spec fn s_variant_block(fm: FieldMapperView, fields: Seq<FieldDef>) -> Seq<Tok> {
    seq![Tok::LBrace] + s_map_fields(fm, fields, true) + seq![Tok::RBrace]
}

/// The output of one variant-mapper strategy on one variant.
pub open spec fn s_variant_out(vm: VariantMapperView, fm: FieldMapperView, v: VariantView) -> Seq<
    Tok,
> {
    match vm {
        VariantMapperView::Default => s_variant_block(fm, v.fields.fields),
        VariantMapperView::Constant(ts) => ts,
    }
}

/// The pattern bindings for each field of a list, in order, each followed
/// by a comma.
pub open spec fn s_pattern_pieces(fields: Seq<FieldDef>) -> Seq<Seq<Tok>> {
    Seq::new(fields.len(), |i: int| s_bound_name(fields[i], i as usize) + seq![Tok::Comma])
}

/// The destructuring pattern for a field list: named fields in braces,
/// unnamed fields in parentheses as positional bindings, nothing for the
/// unit shape.
pub open spec fn s_pattern(fv: FieldsView) -> Seq<Tok> {
    match fv.style {
        FieldStyle::Named => seq![Tok::LBrace] + s_concat(s_pattern_pieces(fv.fields)) + seq![
            Tok::RBrace,
        ],
        FieldStyle::Unnamed => seq![Tok::LParen] + s_concat(s_pattern_pieces(fv.fields)) + seq![
            Tok::RParen,
        ],
        FieldStyle::Unit => Seq::empty(),
    }
}

/// One match arm: the qualified variant path, its destructuring pattern,
/// and the variant mapper's output as the arm body.
pub open spec fn s_arm(parent: u64, vm: VariantMapperView, fm: FieldMapperView, v: VariantView) -> Seq<Tok> {
    seq![Tok::Ident(parent), Tok::PathSep, Tok::Ident(v.ident)] + s_pattern(v.fields) + seq![
        Tok::FatArrow,
    ] + s_variant_out(vm, fm, v) + seq![Tok::Comma]
}

/// The match arms for each variant of an enum, in declared order.
pub open spec fn s_arm_pieces(
    parent: u64,
    vm: VariantMapperView,
    fm: FieldMapperView,
    vs: Seq<VariantView>,
) -> Seq<Seq<Tok>> {
    Seq::new(vs.len(), |i: int| s_arm(parent, vm, fm, vs[i]))
}

/// The default enum traversal: a full `match self` with one arm per
/// variant, in declared order.
pub open spec fn s_enum_match(
    parent: u64,
    vm: VariantMapperView,
    fm: FieldMapperView,
    vs: Seq<VariantView>,
) -> Seq<Tok> {
    seq![Tok::KwMatch, Tok::KwSelf, Tok::LBrace] + s_concat(s_arm_pieces(parent, vm, fm, vs))
        + seq![Tok::RBrace]
}

/// The variant mapper's output over each variant, in order.
pub open spec fn s_variant_pieces(
    vm: VariantMapperView,
    fm: FieldMapperView,
    vs: Seq<VariantView>,
) -> Seq<Seq<Tok>> {
    Seq::new(vs.len(), |i: int| s_variant_out(vm, fm, vs[i]))
}

/// The null enum traversal: per-variant output concatenated without a
/// match.
pub open spec fn s_enum_concat(
    vm: VariantMapperView,
    fm: FieldMapperView,
    vs: Seq<VariantView>,
) -> Seq<Tok> {
    s_concat(s_variant_pieces(vm, fm, vs))
}

/// Apply the current field mapper to one field view. The unset stub must
/// have been replaced, or short-circuited before this point: reaching it
/// is the fatal misconfiguration the requires clause excludes.
pub fn run_field_mapper(gen: &DeriveGenerator, data: Field) -> (r: Vec<Tok>)
    requires
        gen.field_mappers@.len() > 0,
        !(gen.field_mappers@.last()@ is Unset),
    ensures
        r@ == s_field_out(gen.field_mappers@.last()@, data.field, data.index, data.matched),
{
    match gen.field_mapper() {
        FieldMapper::Unset => Vec::new(),
        FieldMapper::EmitName => {
            let mut out: Vec<Tok> = Vec::new();
            match data.field.ident {
                Some(id) => out.push(Tok::Ident(id)),
                None => out.push(Tok::Binding(data.index)),
            }
            proof {
                assert(out@ =~= s_bound_name(data.field, data.index));
            }
            out
        },
        FieldMapper::Constant(ts) => copy_toks(ts),
    }
}

/// The field mapper's output concatenated over a field list.
#[verifier::loop_isolation(false)]
fn map_fields(gen: &DeriveGenerator, fields: &Vec<FieldDef>, matched: bool) -> (r: Vec<Tok>)
    requires
        gen.field_mappers@.len() > 0,
        fields@.len() > 0 ==> !(gen.field_mappers@.last()@ is Unset),
    ensures
        r@ == s_map_fields(gen.field_mappers@.last()@, fields@, matched),
{
    let ghost fm = gen.field_mappers@.last()@;
    let ghost pieces = s_field_pieces(fm, fields@, matched);
    let mut out: Vec<Tok> = Vec::new();
    let mut i: usize = 0;
    while i < fields.len()
        invariant
            i <= fields.len(),
            out@ + s_concat_from(pieces, i as int) == s_concat(pieces),
        decreases fields.len() - i,
    {
        let piece = run_field_mapper(gen, Field { matched, index: i, field: fields[i] });
        proof {
            assert(pieces[i as int] == piece@);
            assert((out@ + piece@) + s_concat_from(pieces, i + 1 as int) =~= out@ + (piece@
                + s_concat_from(pieces, i + 1 as int)));
        }
        push_toks(&mut out, &piece);
        i = i + 1;
    }
    proof {
        assert(out@ + s_concat_from(pieces, fields@.len() as int) =~= out@);
    }
    out
}

/// The default struct mapper: concatenate the field mapper's output over
/// every field of the struct, in declared order.
pub fn default_struct_mapper(gen: &DeriveGenerator, data: &Fields) -> (r: Vec<Tok>)
    requires
        gen.field_mappers@.len() > 0,
        data@.fields.len() > 0 ==> !(gen.field_mappers@.last()@ is Unset),
    ensures
        r@ == s_map_fields(gen.field_mappers@.last()@, data@.fields, false),
{
    let fs = data.field_defs();
    map_fields(gen, &fs, false)
}

/// The default variant mapper: concatenate the field mapper's output over
/// the variant's fields, wrapped in a brace block.
pub fn default_variant_mapper(gen: &DeriveGenerator, data: Variant) -> (r: Vec<Tok>)
    requires
        gen.field_mappers@.len() > 0,
        data@.fields.fields.len() > 0 ==> !(gen.field_mappers@.last()@ is Unset),
    ensures
        r@ == s_variant_block(gen.field_mappers@.last()@, data@.fields.fields),
{
    let mut out: Vec<Tok> = Vec::new();
    out.push(Tok::LBrace);
    let fs = data.variant.fields.field_defs();
    let mid = map_fields(gen, &fs, true);
    push_toks(&mut out, &mid);
    out.push(Tok::RBrace);
    proof {
        assert(out@ =~= s_variant_block(gen.field_mappers@.last()@, data@.fields.fields));
    }
    out
}

/// Apply the current variant mapper to one variant view.
pub fn run_variant_mapper(gen: &DeriveGenerator, data: Variant) -> (r: Vec<Tok>)
    requires
        gen.variant_mappers@.len() > 0,
        gen.field_mappers@.len() > 0,
        (gen.variant_mappers@.last()@ is Default && data@.fields.fields.len() > 0) ==> !(
        gen.field_mappers@.last()@ is Unset),
    ensures
        r@ == s_variant_out(
            gen.variant_mappers@.last()@,
            gen.field_mappers@.last()@,
            data@,
        ),
{
    match gen.variant_mapper() {
        VariantMapper::Default => default_variant_mapper(gen, data),
        VariantMapper::Constant(ts) => copy_toks(ts),
    }
}

/// The destructuring pattern for a field list.
#[verifier::loop_isolation(false)]
pub fn pattern_toks(fields: &Fields) -> (r: Vec<Tok>)
    ensures
        r@ == s_pattern(fields@),
{
    let mut out: Vec<Tok> = Vec::new();
    match fields {
        Fields::Unit => {},
        Fields::Named(fs) => {
            out.push(Tok::LBrace);
            push_pattern_bindings(&mut out, fs);
            out.push(Tok::RBrace);
            proof {
                assert(out@ =~= s_pattern(fields@));
            }
        },
        Fields::Unnamed(fs) => {
            out.push(Tok::LParen);
            push_pattern_bindings(&mut out, fs);
            out.push(Tok::RParen);
            proof {
                assert(out@ =~= s_pattern(fields@));
            }
        },
    }
    out
}

/// Append the comma-separated pattern bindings for each field, in order.
#[verifier::loop_isolation(false)]
fn push_pattern_bindings(out: &mut Vec<Tok>, fs: &Vec<FieldDef>)
    ensures
        final(out)@ == old(out)@ + s_concat(s_pattern_pieces(fs@)),
{
    let ghost pieces = s_pattern_pieces(fs@);
    let ghost base = old(out)@;
    let mut i: usize = 0;
    while i < fs.len()
        invariant
            i <= fs.len(),
            out@ + s_concat_from(pieces, i as int) == base + s_concat(pieces),
        decreases fs.len() - i,
    {
        let ghost at_entry = out@;
        match fs[i].ident {
            Some(id) => out.push(Tok::Ident(id)),
            None => out.push(Tok::Binding(i)),
        }
        out.push(Tok::Comma);
        proof {
            assert(pieces[i as int] == s_bound_name(fs@[i as int], i) + seq![Tok::Comma]);
            assert(out@ =~= at_entry + pieces[i as int]);
            assert(s_concat_from(pieces, i as int) == pieces[i as int] + s_concat_from(
                pieces,
                i + 1 as int,
            ));
            assert(out@ + s_concat_from(pieces, i + 1 as int) =~= at_entry + s_concat_from(
                pieces,
                i as int,
            ));
        }
        i = i + 1;
    }
    proof {
        assert(out@ + s_concat_from(pieces, fs@.len() as int) =~= out@);
    }
}

/// The default enum mapper: a full `match self` with one arm per variant,
/// in declared order, each destructuring that variant's fields and
/// delegating the arm body to the current variant mapper.
#[verifier::loop_isolation(false)]
pub fn default_enum_mapper(gen: &DeriveGenerator, data: &Vec<VariantDef>) -> (r: Vec<Tok>)
    requires
        gen.variant_mappers@.len() > 0,
        gen.field_mappers@.len() > 0,
        gen.variant_mappers@.last()@ is Default ==> (forall|j: int|
            0 <= j < data@.len() && (#[trigger] data@[j])@.fields.fields.len() > 0 ==> !(
            gen.field_mappers@.last()@ is Unset)),
    ensures
        r@ == s_enum_match(
            gen.input.ident,
            gen.variant_mappers@.last()@,
            gen.field_mappers@.last()@,
            s_variant_views(data@),
        ),
{
    let ghost vm = gen.variant_mappers@.last()@;
    let ghost fm = gen.field_mappers@.last()@;
    let ghost vs = s_variant_views(data@);
    let ghost arms = s_arm_pieces(gen.input.ident, vm, fm, vs);
    let ghost hdr: Seq<Tok> = seq![Tok::KwMatch, Tok::KwSelf, Tok::LBrace];
    let mut out: Vec<Tok> = Vec::new();
    out.push(Tok::KwMatch);
    out.push(Tok::KwSelf);
    out.push(Tok::LBrace);
    proof {
        assert(out@ =~= hdr);
    }
    let mut i: usize = 0;
    while i < data.len()
        invariant
            i <= data.len(),
            out@ + s_concat_from(arms, i as int) == hdr + s_concat(arms),
        decreases data.len() - i,
    {
        let ghost at_entry = out@;
        out.push(Tok::Ident(gen.input.ident));
        out.push(Tok::PathSep);
        out.push(Tok::Ident(data[i].ident));
        let pat = pattern_toks(&data[i].fields);
        push_toks(&mut out, &pat);
        out.push(Tok::FatArrow);
        let view = Variant { index: i, parent: gen.input.ident, variant: data[i].duplicate() };
        let body = run_variant_mapper(gen, view);
        push_toks(&mut out, &body);
        out.push(Tok::Comma);
        proof {
            assert(vs[i as int] == (data@[i as int])@);
            assert(arms[i as int] == s_arm(gen.input.ident, vm, fm, vs[i as int]));
            assert(out@ =~= at_entry + arms[i as int]);
            assert(s_concat_from(arms, i as int) == arms[i as int] + s_concat_from(
                arms,
                i + 1 as int,
            ));
            assert(out@ + s_concat_from(arms, i + 1 as int) =~= at_entry + s_concat_from(
                arms,
                i as int,
            ));
        }
        i = i + 1;
    }
    proof {
        assert(out@ + s_concat_from(arms, data@.len() as int) =~= out@);
    }
    out.push(Tok::RBrace);
    proof {
        assert(out@ =~= s_enum_match(gen.input.ident, vm, fm, vs));
    }
    out
}

/// The null enum mapper: the variant mapper's output concatenated over
/// every variant without constructing a match, for methods that do not
/// dispatch on `self`.
#[verifier::loop_isolation(false)]
pub fn null_enum_mapper(gen: &DeriveGenerator, data: &Vec<VariantDef>) -> (r: Vec<Tok>)
    requires
        gen.variant_mappers@.len() > 0,
        gen.field_mappers@.len() > 0,
        gen.variant_mappers@.last()@ is Default ==> (forall|j: int|
            0 <= j < data@.len() && (#[trigger] data@[j])@.fields.fields.len() > 0 ==> !(
            gen.field_mappers@.last()@ is Unset)),
    ensures
        r@ == s_enum_concat(
            gen.variant_mappers@.last()@,
            gen.field_mappers@.last()@,
            s_variant_views(data@),
        ),
{
    let ghost vm = gen.variant_mappers@.last()@;
    let ghost fm = gen.field_mappers@.last()@;
    let ghost vs = s_variant_views(data@);
    let ghost pieces = s_variant_pieces(vm, fm, vs);
    let mut out: Vec<Tok> = Vec::new();
    let mut i: usize = 0;
    while i < data.len()
        invariant
            i <= data.len(),
            out@ + s_concat_from(pieces, i as int) == s_concat(pieces),
        decreases data.len() - i,
    {
        let ghost at_entry = out@;
        let view = Variant { index: i, parent: gen.input.ident, variant: data[i].duplicate() };
        let body = run_variant_mapper(gen, view);
        push_toks(&mut out, &body);
        proof {
            assert(vs[i as int] == (data@[i as int])@);
            assert(pieces[i as int] == body@);
            assert(s_concat_from(pieces, i as int) == pieces[i as int] + s_concat_from(
                pieces,
                i + 1 as int,
            ));
            assert(out@ + s_concat_from(pieces, i + 1 as int) =~= at_entry + s_concat_from(
                pieces,
                i as int,
            ));
        }
        i = i + 1;
    }
    proof {
        assert(out@ + s_concat_from(pieces, data@.len() as int) =~= out@);
    }
    out
}

/// The coarse shape of a data payload.
pub open spec fn s_shape(d: Data) -> DataShape {
    match d {
        Data::Struct(_) => DataShape::Struct,
        Data::Enum(_) => DataShape::Enum,
        Data::Union(_) => DataShape::Union,
    }
}

/// The capability mask one shape must meet.
pub open spec fn s_shape_mask(s: DataShape) -> u8 {
    match s {
        DataShape::Struct => DATA_STRUCT,
        DataShape::Enum => DATA_ENUM,
        DataShape::Union => DATA_UNION,
    }
}

/// The first generic parameter at or after position `i` whose kind the
/// set does not support.
pub open spec fn s_first_bad_from(s: GenericSupport, ps: Seq<GenericParam>, i: int) -> Option<
    GenericParam,
>
    decreases ps.len() - i,
{
    if 0 <= i < ps.len() {
        if !s.spec_supports_kind(s_param_kind((ps[i])@)) {
            Some(ps[i])
        } else {
            s_first_bad_from(s, ps, i + 1)
        }
    } else {
        None
    }
}

impl DeriveGenerator {
    /// What validation returns: the data-kind check, then the
    /// generic-kind check (the first offending parameter is the one
    /// reported), then the custom validator selected by the declaration's
    /// actual data kind. The union payload has no validator hook; a union
    /// reaches the custom validator only when the data-kind check let it
    /// through, which `runnable` excludes.
    pub open spec fn s_validate(self) -> Result<(), Diagnostic> {
        if !self.data_support.spec_supports(
            DataSupport { bits: s_shape_mask(s_shape(self.input.data)) },
        ) {
            Err(
                Diagnostic {
                    level: Level::Error,
                    span: self.input.span,
                    kind: DiagKind::UnsupportedDataKind(s_shape(self.input.data)),
                },
            )
        } else {
            match s_first_bad_from(self.generic_support, self.input.generics.params@, 0) {
                Some(p) => Err(
                    Diagnostic {
                        level: Level::Error,
                        span: s_param_span(p@),
                        kind: DiagKind::UnsupportedGenericKind(s_param_kind(p@)),
                    },
                ),
                None => match self.input.data {
                    Data::Struct(fs) => s_verdict(
                        self.struct_validator,
                        fs@.fields.len(),
                        self.input.span,
                    ),
                    Data::Enum(vs) => s_verdict(self.enum_validator, vs@.len(), self.input.span),
                    Data::Union(_) => Ok(()),
                },
            }
        }
    }

    /// Run the validation stage, short-circuiting on the first failure.
    #[verifier::loop_isolation(false)]
    pub fn validate(&self) -> (r: Result<(), Diagnostic>)
        requires
            self.input.data is Union ==> !self.data_support.spec_supports(
                (DataSupport { bits: DATA_UNION }),
            ),
        ensures
            r == self.s_validate(),
    {
        let shape = match &self.input.data {
            Data::Struct(_) => DataShape::Struct,
            Data::Enum(_) => DataShape::Enum,
            Data::Union(_) => DataShape::Union,
        };
        let mask: u8 = match shape {
            DataShape::Struct => DATA_STRUCT,
            DataShape::Enum => DATA_ENUM,
            DataShape::Union => DATA_UNION,
        };
        if !self.data_support.supports(DataSupport { bits: mask }) {
            return Err(
                Diagnostic {
                    level: Level::Error,
                    span: self.input.span,
                    kind: DiagKind::UnsupportedDataKind(shape),
                },
            );
        }
        let params = &self.input.generics.params;
        let mut i: usize = 0;
        while i < params.len()
            invariant
                i <= params.len(),
                s_first_bad_from(self.generic_support, params@, 0) == s_first_bad_from(
                    self.generic_support,
                    params@,
                    i as int,
                ),
            decreases params.len() - i,
        {
            let kind = match &params[i] {
                GenericParam::Type { .. } => GenericKind::Type,
                GenericParam::Lifetime { .. } => GenericKind::Lifetime,
                GenericParam::Const { .. } => GenericKind::Const,
            };
            if !self.generic_support.supports_kind(kind) {
                let span = match &params[i] {
                    GenericParam::Type { span, .. } => *span,
                    GenericParam::Lifetime { span, .. } => *span,
                    GenericParam::Const { span, .. } => *span,
                };
                return Err(
                    Diagnostic {
                        level: Level::Error,
                        span,
                        kind: DiagKind::UnsupportedGenericKind(kind),
                    },
                );
            }
            i = i + 1;
        }
        match &self.input.data {
            Data::Struct(fs) => self.struct_validator.check_struct(fs, self.input.span),
            Data::Enum(vs) => self.enum_validator.check_enum(vs, self.input.span),
            // unreachable: the data-kind gate rejected unions above
            Data::Union(_) => Ok(()),
        }
    }
}

/// Whether every generic argument on the trait path is a lifetime.
/// Non-lifetime trait-level arguments have no substitution semantics
/// here; a run is only defined without them.
pub open spec fn s_args_lifetimes_only(args: Seq<GenericArg>) -> bool {
    forall|i: int| 0 <= i < args.len() ==> (#[trigger] args[i]) is Lifetime
}

/// The implementation-header parameter a trait-path lifetime argument
/// contributes, positioned at the caller-chosen default span.
pub open spec fn s_arg_param(a: GenericArg) -> ParamView {
    match a {
        GenericArg::Lifetime(id) => ParamView::Lifetime { ident: id, span: CALL_SITE },
        GenericArg::Other(_) => arbitrary(),
    }
}

/// The parameters of the implementation header: the trait path's lifetime
/// arguments, each prepended in turn (so they stand in reverse order),
/// followed by the declaration's own parameters.
pub open spec fn s_impl_params(g: DeriveGenerator) -> Seq<ParamView> {
    Seq::new(
        g.trait_path.args@.len(),
        |i: int| s_arg_param(g.trait_path.args@[g.trait_path.args@.len() - 1 - i]),
    ) + s_param_views(g.input.generics.params@)
}

/// Each bound of a type parameter, rendered with a trailing `+`.
pub open spec fn s_bound_pieces(bs: Seq<u64>) -> Seq<Seq<Tok>> {
    Seq::new(bs.len(), |i: int| seq![Tok::Ident(bs[i]), Tok::Plus])
}

/// One generic parameter as it appears in the implementation header,
/// bounds included.
pub open spec fn s_param_decl_toks(p: ParamView) -> Seq<Tok> {
    match p {
        ParamView::Type { ident, bounds, .. } => seq![Tok::Ident(ident)] + (if bounds.len() == 0 {
            Seq::<Tok>::empty()
        } else {
            seq![Tok::Colon] + s_concat(s_bound_pieces(bounds))
        }),
        ParamView::Lifetime { ident, .. } => seq![Tok::Lifetime(ident)],
        ParamView::Const { ident, .. } => seq![Tok::KwConst, Tok::Ident(ident)],
    }
}

/// The comma-terminated header renderings of a parameter list.
pub open spec fn s_param_list_pieces(ps: Seq<ParamView>) -> Seq<Seq<Tok>> {
    Seq::new(ps.len(), |i: int| s_param_decl_toks(ps[i]) + seq![Tok::Comma])
}

/// The `<...>` parameter list of the implementation header; nothing when
/// no parameter exists.
pub open spec fn s_param_list_toks(ps: Seq<ParamView>) -> Seq<Tok> {
    if ps.len() == 0 {
        Seq::empty()
    } else {
        seq![Tok::Lt] + s_concat(s_param_list_pieces(ps)) + seq![Tok::Gt]
    }
}

/// One generic parameter as it appears applied to the target type.
pub open spec fn s_param_use_toks(p: ParamView) -> Seq<Tok> {
    match p {
        ParamView::Type { ident, .. } => seq![Tok::Ident(ident)],
        ParamView::Lifetime { ident, .. } => seq![Tok::Lifetime(ident)],
        ParamView::Const { ident, .. } => seq![Tok::Ident(ident)],
    }
}

/// The comma-terminated target-type renderings of a parameter list.
pub open spec fn s_ty_list_pieces(ps: Seq<ParamView>) -> Seq<Seq<Tok>> {
    Seq::new(ps.len(), |i: int| s_param_use_toks(ps[i]) + seq![Tok::Comma])
}

/// The `<...>` argument list applied to the target type; nothing when no
/// parameter exists.
pub open spec fn s_ty_list_toks(ps: Seq<ParamView>) -> Seq<Tok> {
    if ps.len() == 0 {
        Seq::empty()
    } else {
        seq![Tok::Lt] + s_concat(s_ty_list_pieces(ps)) + seq![Tok::Gt]
    }
}

/// The path segments, `::`-separated.
pub open spec fn s_seg_pieces(segs: Seq<u64>) -> Seq<Seq<Tok>> {
    Seq::new(
        segs.len(),
        |i: int|
            if i + 1 < segs.len() {
                seq![Tok::Ident(segs[i]), Tok::PathSep]
            } else {
                seq![Tok::Ident(segs[i])]
            },
    )
}

/// One comma-terminated generic argument of the trait path.
pub open spec fn s_path_arg_toks(a: GenericArg) -> Seq<Tok> {
    match a {
        GenericArg::Lifetime(id) => seq![Tok::Lifetime(id), Tok::Comma],
        GenericArg::Other(id) => seq![Tok::Ident(id), Tok::Comma],
    }
}

/// The comma-terminated renderings of the trait path's arguments.
pub open spec fn s_path_arg_pieces(args: Seq<GenericArg>) -> Seq<Seq<Tok>> {
    Seq::new(args.len(), |i: int| s_path_arg_toks(args[i]))
}

/// The trait path with its generic arguments.
pub open spec fn s_path_toks(tp: TraitPath) -> Seq<Tok> {
    s_concat(s_seg_pieces(tp.segments@)) + (if tp.args@.len() == 0 {
        Seq::<Tok>::empty()
    } else {
        seq![Tok::Lt] + s_concat(s_path_arg_pieces(tp.args@)) + seq![Tok::Gt]
    })
}

/// The declaration's own `where` predicates, each comma-terminated.
pub open spec fn s_decl_pred_pieces(preds: Seq<Vec<Tok>>) -> Seq<Seq<Tok>> {
    Seq::new(preds.len(), |i: int| (preds[i])@ + seq![Tok::Comma])
}

/// The comma-terminated predicates the bound mapper contributes: one per
/// type parameter, in declaration order; nothing for other parameters or
/// when no mapper is configured.
pub open spec fn s_mapped_pred_pieces(m: Option<BoundMapper>, ps: Seq<GenericParam>) -> Seq<
    Seq<Tok>,
> {
    Seq::new(
        ps.len(),
        |i: int|
            match (ps[i])@ {
                ParamView::Type { ident, .. } => match m {
                    Some(b) => s_bound_pred(b, ident) + seq![Tok::Comma],
                    None => Seq::<Tok>::empty(),
                },
                _ => Seq::<Tok>::empty(),
            },
    )
}

impl DeriveGenerator {
    /// The predicates of the generated `where` clause: the declaration's
    /// own, then the bound mapper's, in order.
    pub open spec fn s_where_body(self) -> Seq<Tok> {
        s_concat(s_decl_pred_pieces(self.input.generics.where_preds@)) + s_concat(
            s_mapped_pred_pieces(self.type_generic_mapper, self.input.generics.params@),
        )
    }

    /// The generated `where` clause; nothing when no predicate exists.
    pub open spec fn s_where_toks(self) -> Seq<Tok> {
        if self.s_where_body().len() == 0 {
            Seq::empty()
        } else {
            seq![Tok::KwWhere] + self.s_where_body()
        }
    }
}

/// Render one generic parameter for the implementation header.
#[verifier::loop_isolation(false)]
fn param_decl_toks(p: &GenericParam) -> (r: Vec<Tok>)
    ensures
        r@ == s_param_decl_toks(p@),
{
    let mut out: Vec<Tok> = Vec::new();
    match p {
        GenericParam::Type { ident, bounds, .. } => {
            out.push(Tok::Ident(*ident));
            if bounds.len() > 0 {
                out.push(Tok::Colon);
                let ghost pieces = s_bound_pieces(bounds@);
                let ghost base = out@;
                let mut j: usize = 0;
                while j < bounds.len()
                    invariant
                        j <= bounds.len(),
                        out@ + s_concat_from(pieces, j as int) == base + s_concat(pieces),
                    decreases bounds.len() - j,
                {
                    let ghost at_entry = out@;
                    out.push(Tok::Ident(bounds[j]));
                    out.push(Tok::Plus);
                    proof {
                        assert(pieces[j as int] == seq![Tok::Ident(bounds@[j as int]), Tok::Plus]);
                        assert(out@ =~= at_entry + pieces[j as int]);
                        assert(s_concat_from(pieces, j as int) == pieces[j as int]
                            + s_concat_from(pieces, j + 1 as int));
                        assert(out@ + s_concat_from(pieces, j + 1 as int) =~= at_entry
                            + s_concat_from(pieces, j as int));
                    }
                    j = j + 1;
                }
                proof {
                    assert(out@ + s_concat_from(pieces, bounds@.len() as int) =~= out@);
                }
            }
            proof {
                assert(out@ =~= s_param_decl_toks(p@));
            }
        },
        GenericParam::Lifetime { ident, .. } => {
            out.push(Tok::Lifetime(*ident));
            proof {
                assert(out@ =~= s_param_decl_toks(p@));
            }
        },
        GenericParam::Const { ident, .. } => {
            out.push(Tok::KwConst);
            out.push(Tok::Ident(*ident));
            proof {
                assert(out@ =~= s_param_decl_toks(p@));
            }
        },
    }
    out
}

/// Render a parameter list for the implementation header.
#[verifier::loop_isolation(false)]
fn param_list_toks(ps: &Vec<GenericParam>) -> (r: Vec<Tok>)
    ensures
        r@ == s_param_list_toks(s_param_views(ps@)),
{
    let mut out: Vec<Tok> = Vec::new();
    if ps.len() == 0 {
        return out;
    }
    let ghost views = s_param_views(ps@);
    let ghost pieces = s_param_list_pieces(views);
    out.push(Tok::Lt);
    let ghost base = out@;
    let mut i: usize = 0;
    while i < ps.len()
        invariant
            i <= ps.len(),
            out@ + s_concat_from(pieces, i as int) == base + s_concat(pieces),
        decreases ps.len() - i,
    {
        let ghost at_entry = out@;
        let decl = param_decl_toks(&ps[i]);
        push_toks(&mut out, &decl);
        out.push(Tok::Comma);
        proof {
            assert(views[i as int] == (ps@[i as int])@);
            assert(pieces[i as int] == s_param_decl_toks(views[i as int]) + seq![Tok::Comma]);
            assert(out@ =~= at_entry + pieces[i as int]);
            assert(s_concat_from(pieces, i as int) == pieces[i as int] + s_concat_from(
                pieces,
                i + 1 as int,
            ));
            assert(out@ + s_concat_from(pieces, i + 1 as int) =~= at_entry + s_concat_from(
                pieces,
                i as int,
            ));
        }
        i = i + 1;
    }
    proof {
        assert(out@ + s_concat_from(pieces, ps@.len() as int) =~= out@);
    }
    out.push(Tok::Gt);
    proof {
        assert(out@ =~= s_param_list_toks(views));
    }
    out
}

/// Render a parameter list as arguments applied to the target type.
#[verifier::loop_isolation(false)]
fn ty_list_toks(ps: &Vec<GenericParam>) -> (r: Vec<Tok>)
    ensures
        r@ == s_ty_list_toks(s_param_views(ps@)),
{
    let mut out: Vec<Tok> = Vec::new();
    if ps.len() == 0 {
        return out;
    }
    let ghost views = s_param_views(ps@);
    let ghost pieces = s_ty_list_pieces(views);
    out.push(Tok::Lt);
    let ghost base = out@;
    let mut i: usize = 0;
    while i < ps.len()
        invariant
            i <= ps.len(),
            out@ + s_concat_from(pieces, i as int) == base + s_concat(pieces),
        decreases ps.len() - i,
    {
        let ghost at_entry = out@;
        match &ps[i] {
            GenericParam::Type { ident, .. } => out.push(Tok::Ident(*ident)),
            GenericParam::Lifetime { ident, .. } => out.push(Tok::Lifetime(*ident)),
            GenericParam::Const { ident, .. } => out.push(Tok::Ident(*ident)),
        }
        out.push(Tok::Comma);
        proof {
            assert(views[i as int] == (ps@[i as int])@);
            assert(pieces[i as int] == s_param_use_toks(views[i as int]) + seq![Tok::Comma]);
            assert(out@ =~= at_entry + pieces[i as int]);
            assert(s_concat_from(pieces, i as int) == pieces[i as int] + s_concat_from(
                pieces,
                i + 1 as int,
            ));
            assert(out@ + s_concat_from(pieces, i + 1 as int) =~= at_entry + s_concat_from(
                pieces,
                i as int,
            ));
        }
        i = i + 1;
    }
    proof {
        assert(out@ + s_concat_from(pieces, ps@.len() as int) =~= out@);
    }
    out.push(Tok::Gt);
    proof {
        assert(out@ =~= s_ty_list_toks(views));
    }
    out
}

/// Render the trait path with its generic arguments.
#[verifier::loop_isolation(false)]
fn path_toks(tp: &TraitPath) -> (r: Vec<Tok>)
    ensures
        r@ == s_path_toks(*tp),
{
    let mut out: Vec<Tok> = Vec::new();
    let ghost segs = s_seg_pieces(tp.segments@);
    let mut i: usize = 0;
    while i < tp.segments.len()
        invariant
            i <= tp.segments.len(),
            out@ + s_concat_from(segs, i as int) == s_concat(segs),
        decreases tp.segments.len() - i,
    {
        let ghost at_entry = out@;
        out.push(Tok::Ident(tp.segments[i]));
        if i + 1 < tp.segments.len() {
            out.push(Tok::PathSep);
        }
        proof {
            assert(out@ =~= at_entry + segs[i as int]);
            assert(s_concat_from(segs, i as int) == segs[i as int] + s_concat_from(
                segs,
                i + 1 as int,
            ));
            assert(out@ + s_concat_from(segs, i + 1 as int) =~= at_entry + s_concat_from(
                segs,
                i as int,
            ));
        }
        i = i + 1;
    }
    proof {
        assert(out@ + s_concat_from(segs, tp.segments@.len() as int) =~= out@);
        assert(out@ =~= s_concat(segs));
    }
    if tp.args.len() == 0 {
        proof {
            assert(out@ =~= s_path_toks(*tp));
        }
        return out;
    }
    let ghost args = s_path_arg_pieces(tp.args@);
    let ghost base = out@ + seq![Tok::Lt];
    out.push(Tok::Lt);
    let mut j: usize = 0;
    while j < tp.args.len()
        invariant
            j <= tp.args.len(),
            out@ + s_concat_from(args, j as int) == base + s_concat(args),
        decreases tp.args.len() - j,
    {
        let ghost at_entry = out@;
        match &tp.args[j] {
            GenericArg::Lifetime(id) => out.push(Tok::Lifetime(*id)),
            GenericArg::Other(id) => out.push(Tok::Ident(*id)),
        }
        out.push(Tok::Comma);
        proof {
            assert(args[j as int] == s_path_arg_toks(tp.args@[j as int]));
            assert(out@ =~= at_entry + args[j as int]);
            assert(s_concat_from(args, j as int) == args[j as int] + s_concat_from(
                args,
                j + 1 as int,
            ));
            assert(out@ + s_concat_from(args, j + 1 as int) =~= at_entry + s_concat_from(
                args,
                j as int,
            ));
        }
        j = j + 1;
    }
    proof {
        assert(out@ + s_concat_from(args, tp.args@.len() as int) =~= out@);
    }
    out.push(Tok::Gt);
    proof {
        assert(out@ =~= s_path_toks(*tp));
    }
    out
}

impl DeriveGenerator {
    /// The parameters of the implementation header: the trait path's
    /// lifetime arguments, each prepended in turn, then the declaration's
    /// own parameters.
    #[verifier::loop_isolation(false)]
    fn impl_params(&self) -> (r: Vec<GenericParam>)
        requires
            s_args_lifetimes_only(self.trait_path.args@),
        ensures
            s_param_views(r@) == s_impl_params(*self),
    {
        let ghost argpart = Seq::new(
            self.trait_path.args@.len(),
            |i: int| s_arg_param(self.trait_path.args@[self.trait_path.args@.len() - 1 - i]),
        );
        let mut out: Vec<GenericParam> = Vec::new();
        let n = self.trait_path.args.len();
        let mut i: usize = 0;
        while i < n
            invariant
                i <= n,
                s_param_views(out@) == argpart.take(i as int),
            decreases n - i,
        {
            let ghost before = out@;
            let id: u64 = match &self.trait_path.args[n - 1 - i] {
                GenericArg::Lifetime(l) => *l,
                GenericArg::Other(x) => {
                    proof {
                        assert(false);
                    }
                    *x
                },
            };
            let p = GenericParam::Lifetime { ident: id, span: CALL_SITE };
            out.push(p);
            proof {
                lemma_param_views_push(
                    before,
                    GenericParam::Lifetime { ident: id, span: CALL_SITE },
                );
                assert(argpart[i as int] == s_arg_param(
                    self.trait_path.args@[n - 1 - i as int],
                ));
                assert(argpart.take(i + 1 as int) =~= argpart.take(i as int).push(
                    argpart[i as int],
                ));
            }
            i = i + 1;
        }
        proof {
            assert(argpart.take(argpart.len() as int) =~= argpart);
        }
        let params = &self.input.generics.params;
        let mut k: usize = 0;
        while k < params.len()
            invariant
                k <= params.len(),
                s_param_views(out@) == argpart + s_param_views(
                    params@.take(k as int),
                ),
            decreases params.len() - k,
        {
            let ghost before = out@;
            let p = params[k].duplicate();
            out.push(p);
            proof {
                lemma_param_views_push(before, p);
                assert(params@.take(k + 1 as int) =~= params@.take(k as int).push(
                    params@[k as int],
                ));
                lemma_param_views_push(params@.take(k as int), params@[k as int]);
                assert(s_param_views(out@) =~= argpart
                    + s_param_views(params@.take(k + 1 as int)));
            }
            k = k + 1;
        }
        proof {
            assert(params@.take(params@.len() as int) =~= params@);
        }
        out
    }

    /// Render the generated `where` clause.
    #[verifier::loop_isolation(false)]
    fn where_toks(&self) -> (r: Vec<Tok>)
        ensures
            r@ == self.s_where_toks(),
    {
        let mut body: Vec<Tok> = Vec::new();
        let preds = &self.input.generics.where_preds;
        let ghost dpieces = s_decl_pred_pieces(preds@);
        let mut i: usize = 0;
        while i < preds.len()
            invariant
                i <= preds.len(),
                body@ + s_concat_from(dpieces, i as int) == s_concat(dpieces),
            decreases preds.len() - i,
        {
            let ghost at_entry = body@;
            push_toks(&mut body, &preds[i]);
            body.push(Tok::Comma);
            proof {
                assert(dpieces[i as int] == (preds@[i as int])@ + seq![Tok::Comma]);
                assert(body@ =~= at_entry + dpieces[i as int]);
                assert(s_concat_from(dpieces, i as int) == dpieces[i as int] + s_concat_from(
                    dpieces,
                    i + 1 as int,
                ));
                assert(body@ + s_concat_from(dpieces, i + 1 as int) =~= at_entry + s_concat_from(
                    dpieces,
                    i as int,
                ));
            }
            i = i + 1;
        }
        proof {
            assert(body@ + s_concat_from(dpieces, preds@.len() as int) =~= body@);
        }
        let params = &self.input.generics.params;
        let ghost mpieces = s_mapped_pred_pieces(self.type_generic_mapper, params@);
        let ghost mid = body@;
        let mut k: usize = 0;
        while k < params.len()
            invariant
                k <= params.len(),
                body@ + s_concat_from(mpieces, k as int) == mid + s_concat(mpieces),
            decreases params.len() - k,
        {
            let ghost at_entry = body@;
            match &params[k] {
                GenericParam::Type { ident, .. } => match &self.type_generic_mapper {
                    Some(b) => {
                        body.push(Tok::Ident(*ident));
                        body.push(Tok::Colon);
                        body.push(Tok::Ident(b.bound));
                        body.push(Tok::Comma);
                    },
                    None => {},
                },
                _ => {},
            }
            proof {
                assert(body@ =~= at_entry + mpieces[k as int]);
                assert(s_concat_from(mpieces, k as int) == mpieces[k as int] + s_concat_from(
                    mpieces,
                    k + 1 as int,
                ));
                assert(body@ + s_concat_from(mpieces, k + 1 as int) =~= at_entry + s_concat_from(
                    mpieces,
                    k as int,
                ));
            }
            k = k + 1;
        }
        proof {
            assert(body@ + s_concat_from(mpieces, params@.len() as int) =~= body@);
            assert(body@ == self.s_where_body());
        }
        if body.len() == 0 {
            body
        } else {
            let mut out: Vec<Tok> = Vec::new();
            out.push(Tok::KwWhere);
            push_toks(&mut out, &body);
            proof {
                assert(out@ =~= self.s_where_toks());
            }
            out
        }
    }
}

/// The body expression synthesized for registered function `i`: dispatch
/// on the declaration's data kind to that function's struct or enum
/// mapper. The default traversals delegate to the most recently
/// registered function's variant and field mappers.
pub open spec fn s_fn_body(g: DeriveGenerator, i: int) -> Seq<Tok> {
    match g.input.data {
        Data::Struct(fs) => match (g.struct_mappers@[i])@ {
            StructMapperView::Default => s_map_fields(g.field_mappers@.last()@, fs@.fields, false),
            StructMapperView::Constant(ts) => ts,
        },
        Data::Enum(vs) => match (g.enum_mappers@[i])@ {
            EnumMapperView::Default => s_enum_match(
                g.input.ident,
                g.variant_mappers@.last()@,
                g.field_mappers@.last()@,
                s_variant_views(vs@),
            ),
            EnumMapperView::Null => s_enum_concat(
                g.variant_mappers@.last()@,
                g.field_mappers@.last()@,
                s_variant_views(vs@),
            ),
            EnumMapperView::Constant(ts) => ts,
        },
        Data::Union(_) => Seq::empty(),
    }
}

/// The complete method definition for registered function `i`: its body
/// passed through its function-level wrapper.
pub open spec fn s_fn_code(g: DeriveGenerator, i: int) -> Seq<Tok> {
    s_wrapped_fn((g.functions@[i])@, s_fn_body(g, i))
}

/// The method definitions of all registered functions, in registration
/// order.
pub open spec fn s_fn_pieces(g: DeriveGenerator) -> Seq<Seq<Tok>> {
    Seq::new(g.functions@.len(), |i: int| s_fn_code(g, i))
}

/// The complete generated implementation:
/// `impl <params> <trait> for <target><args> <where> { <methods> }`.
pub open spec fn s_impl_toks(g: DeriveGenerator) -> Seq<Tok> {
    seq![Tok::KwImpl] + s_param_list_toks(s_impl_params(g)) + s_path_toks(g.trait_path) + seq![
        Tok::KwFor,
        Tok::Ident(g.input.ident),
    ] + s_ty_list_toks(s_param_views(g.input.generics.params@)) + g.s_where_toks()
        + seq![Tok::LBrace] + s_concat(s_fn_pieces(g)) + seq![Tok::RBrace]
}

impl DeriveGenerator {
    /// Whether traversal for registered function `i` stays clear of the
    /// unset field-mapper stub.
    pub open spec fn s_mapper_ok_at(self, i: int) -> bool {
        match self.input.data {
            Data::Struct(fs) => ((self.struct_mappers@[i])@ is Default && fs@.fields.len() > 0)
                ==> !(self.field_mappers@.last()@ is Unset),
            Data::Enum(vs) => ((self.enum_mappers@[i])@ is Default || (self.enum_mappers@[i])@
                is Null) ==> (self.variant_mappers@.last()@ is Default ==> (forall|j: int|
                0 <= j < vs@.len() && (#[trigger] vs@[j])@.fields.fields.len() > 0 ==> !(
                self.field_mappers@.last()@ is Unset))),
            Data::Union(_) => true,
        }
    }

    /// Every registered function's traversal avoids the unset stub.
    pub open spec fn s_mappers_ok(self) -> bool {
        forall|i: int| 0 <= i < self.functions@.len() ==> #[trigger] self.s_mapper_ok_at(i)
    }

    /// The configurations a run is defined on. Reaching the unset field
    /// mapper, processing a union past the data-kind gate, and
    /// non-lifetime trait-path arguments are fatal programming errors,
    /// not recoverable diagnostics: they are excluded here rather than
    /// given invented behaviour.
    pub open spec fn runnable(self) -> bool {
        &&& self.wf()
        &&& (self.input.data is Union ==> !self.data_support.spec_supports(
            DataSupport { bits: DATA_UNION },
        ))
        &&& (self.s_validate() is Ok ==> s_args_lifetimes_only(self.trait_path.args@)
            && self.s_mappers_ok())
    }

    /// One derivation: validate, then synthesize each registered
    /// function's method and assemble the implementation around them.
    #[verifier::loop_isolation(false)]
    fn synthesize(&self) -> (r: Result<Vec<Tok>, Diagnostic>)
        requires
            self.runnable(),
        ensures
            r matches Ok(ts) ==> self.s_validate() is Ok && ts@ == s_impl_toks(*self),
            r matches Err(d) ==> self.s_validate() == Err::<(), Diagnostic>(d),
    {
        match self.validate() {
            Err(d) => {
                return Err(d);
            },
            Ok(_) => {},
        }
        let ghost pieces = s_fn_pieces(*self);
        let mut code: Vec<Tok> = Vec::new();
        let mut i: usize = 0;
        while i < self.functions.len()
            invariant
                i <= self.functions@.len(),
                code@ + s_concat_from(pieces, i as int) == s_concat(pieces),
            decreases self.functions@.len() - i,
        {
            let ghost at_entry = code@;
            proof {
                assert(self.s_mapper_ok_at(i as int));
            }
            let body: Vec<Tok> = match &self.input.data {
                Data::Struct(fs) => match &self.struct_mappers[i] {
                    StructMapper::Default => default_struct_mapper(self, fs),
                    StructMapper::Constant(ts) => copy_toks(ts),
                },
                Data::Enum(vs) => match &self.enum_mappers[i] {
                    EnumMapper::Default => default_enum_mapper(self, vs),
                    EnumMapper::Null => null_enum_mapper(self, vs),
                    EnumMapper::Constant(ts) => copy_toks(ts),
                },
                // unreachable: the data-kind gate rejected unions
                Data::Union(_) => Vec::new(),
            };
            proof {
                assert(body@ == s_fn_body(*self, i as int));
            }
            let fc: Vec<Tok> = match &self.functions[i] {
                FnMapper::Identity => body,
                FnMapper::Wrap(h) => {
                    let mut w = copy_toks(h);
                    w.push(Tok::LBrace);
                    push_toks(&mut w, &body);
                    w.push(Tok::RBrace);
                    proof {
                        assert(w@ =~= s_wrapped_fn((self.functions@[i as int])@, body@));
                    }
                    w
                },
            };
            proof {
                assert(pieces[i as int] == fc@);
                assert(s_concat_from(pieces, i as int) == pieces[i as int] + s_concat_from(
                    pieces,
                    i + 1 as int,
                ));
                assert(code@ + fc@ + s_concat_from(pieces, i + 1 as int) =~= at_entry
                    + s_concat_from(pieces, i as int));
            }
            push_toks(&mut code, &fc);
            i = i + 1;
        }
        proof {
            assert(code@ + s_concat_from(pieces, self.functions@.len() as int) =~= code@);
            assert(code@ == s_concat(pieces));
        }
        let mut out: Vec<Tok> = Vec::new();
        out.push(Tok::KwImpl);
        let ips = self.impl_params();
        let ipt = param_list_toks(&ips);
        push_toks(&mut out, &ipt);
        let pt = path_toks(&self.trait_path);
        push_toks(&mut out, &pt);
        out.push(Tok::KwFor);
        out.push(Tok::Ident(self.input.ident));
        let tyt = ty_list_toks(&self.input.generics.params);
        push_toks(&mut out, &tyt);
        let wt = self.where_toks();
        push_toks(&mut out, &wt);
        out.push(Tok::LBrace);
        push_toks(&mut out, &code);
        out.push(Tok::RBrace);
        proof {
            assert(out@ =~= s_impl_toks(*self));
        }
        Ok(out)
    }

    /// The overall result of a run: the implementation tokens on success;
    /// on a validation failure, empty output and the diagnostic decorated
    /// with a note naming the derived trait (the trait path's last
    /// segment). With an empty trait path nothing can be named and the
    /// diagnostic is dropped with the output.
    pub open spec fn s_run(self) -> (Seq<Tok>, Option<EmittedDiagnostic>) {
        match self.s_validate() {
            Ok(_) => (s_impl_toks(self), None),
            Err(d) => if self.trait_path.segments@.len() == 0 {
                (Seq::empty(), None)
            } else {
                (
                    Seq::empty(),
                    Some(
                        EmittedDiagnostic {
                            diagnostic: d,
                            note_span: CALL_SITE,
                            derived_trait: self.trait_path.segments@.last(),
                        },
                    ),
                )
            },
        }
    }

    /// Run the derivation. A failed validation degrades gracefully: the
    /// result is empty output plus the decorated diagnostic, never a
    /// crash of the caller's larger run.
    pub fn to_tokens(&self) -> (r: (Vec<Tok>, Option<EmittedDiagnostic>))
        requires
            self.runnable(),
        ensures
            r.0@ == self.s_run().0,
            r.1 == self.s_run().1,
    {
        match self.synthesize() {
            Ok(ts) => (ts, None),
            Err(d) => {
                if self.trait_path.segments.len() == 0 {
                    (Vec::new(), None)
                } else {
                    let last = self.trait_path.segments[self.trait_path.segments.len() - 1];
                    (
                        Vec::new(),
                        Some(
                            EmittedDiagnostic {
                                diagnostic: d,
                                note_span: CALL_SITE,
                                derived_trait: last,
                            },
                        ),
                    )
                }
            },
        }
    }
}

/// An override applied after registrations touches only the most recent
/// slot: the list keeps its length, the last slot takes the new value,
/// and every earlier slot is unchanged.
pub proof fn lemma_override_mutates_only_last<T>(before: Seq<T>, f: T)
    requires
        before.len() > 0,
    ensures
        before.update(before.len() - 1, f).len() == before.len(),
        before.update(before.len() - 1, f)[before.len() - 1] == f,
        forall|j: int|
            0 <= j < before.len() - 1 ==> before.update(before.len() - 1, f)[j] == before[j],
{
}

/// A generator whose data capability set does not cover the declaration's
/// shape rejects it with `UnsupportedDataKind` at the declaration's span,
/// whatever else is configured.
pub proof fn lemma_unsupported_data_kind(g: DeriveGenerator)
    requires
        !g.data_support.spec_supports(DataSupport { bits: s_shape_mask(s_shape(g.input.data)) }),
    ensures
        g.s_validate() == Err::<(), Diagnostic>(
            Diagnostic {
                level: Level::Error,
                span: g.input.span,
                kind: DiagKind::UnsupportedDataKind(s_shape(g.input.data)),
            },
        ),
{
}

/// A generator that accepts no generic-parameter kind rejects any
/// declaration carrying at least one generic parameter, citing the first
/// offending parameter at its own span.
pub proof fn lemma_no_generics_rejected(g: DeriveGenerator)
    requires
        g.generic_support.bits == GENERIC_NONE,
        g.data_support.spec_supports(DataSupport { bits: s_shape_mask(s_shape(g.input.data)) }),
        g.input.generics.params@.len() > 0,
    ensures
        g.s_validate() == Err::<(), Diagnostic>(
            Diagnostic {
                level: Level::Error,
                span: s_param_span((g.input.generics.params@[0])@),
                kind: DiagKind::UnsupportedGenericKind(s_param_kind((g.input.generics.params@[0])@)),
            },
        ),
{
    let p0 = g.input.generics.params@[0];
    lemma_generic_supports_kind(g.generic_support, s_param_kind(p0@));
    assert(s_first_bad_from(g.generic_support, g.input.generics.params@, 0) == Some(p0));
}

/// A custom struct validator that rejects the declaration makes the whole
/// run yield empty output plus the validator's diagnostic, decorated with
/// a note naming the derived trait.
pub proof fn lemma_validator_failure_reported(g: DeriveGenerator, d: Diagnostic)
    requires
        g.input.data is Struct,
        g.struct_validator == Validator::Reject(d),
        g.data_support.spec_supports(DataSupport { bits: DATA_STRUCT }),
        s_first_bad_from(g.generic_support, g.input.generics.params@, 0) is None,
        g.trait_path.segments@.len() > 0,
    ensures
        g.s_run() == (
            Seq::<Tok>::empty(),
            Some(
                EmittedDiagnostic {
                    diagnostic: d,
                    note_span: CALL_SITE,
                    derived_trait: g.trait_path.segments@.last(),
                },
            ),
        ),
{
}

/// Two runs of one generator yield identical results: the output is a
/// function of the frozen configuration and declaration alone, with no
/// hidden traversal state surviving a run.
pub proof fn lemma_run_deterministic(
    g: DeriveGenerator,
    r1: (Seq<Tok>, Option<EmittedDiagnostic>),
    r2: (Seq<Tok>, Option<EmittedDiagnostic>),
)
    requires
        r1 == g.s_run(),
        r2 == g.s_run(),
    ensures
        r1 == r2,
{
}

} // verus!
