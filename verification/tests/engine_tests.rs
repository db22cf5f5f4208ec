use devise_core::generator::default_struct_mapper;
use devise_core::generator::pattern_toks;
use devise_core::support::DATA_ENUM;
use devise_core::support::DATA_STRUCT;
use devise_core::BoundMapper;
use devise_core::Data;
use devise_core::DataShape;
use devise_core::DataSupport;
use devise_core::DeriveGenerator;
use devise_core::DeriveInput;
use devise_core::DiagKind;
use devise_core::Diagnostic;
use devise_core::EnumMapper;
use devise_core::FieldDef;
use devise_core::FieldMapper;
use devise_core::Fields;
use devise_core::FnMapper;
use devise_core::GenericArg;
use devise_core::GenericKind;
use devise_core::GenericParam;
use devise_core::GenericSupport;
use devise_core::Generics;
use devise_core::Level;
use devise_core::StructMapper;
use devise_core::Tok;
use devise_core::TraitPath;
use devise_core::Validator;
use devise_core::VariantDef;
use devise_core::VariantMapper;
use devise_core::CALL_SITE;

fn named(id: u64) -> FieldDef {
    FieldDef { ident: Some(id), ty: 0, span: 0 }
}

fn unnamed() -> FieldDef {
    FieldDef { ident: None, ty: 0, span: 0 }
}

fn no_generics() -> Generics {
    Generics { params: vec![], where_preds: vec![] }
}

fn path(seg: u64) -> TraitPath {
    TraitPath { segments: vec![seg], args: vec![] }
}

fn struct_input(fields: Fields) -> DeriveInput {
    DeriveInput { ident: 100, generics: no_generics(), data: Data::Struct(fields), span: 7 }
}

fn enum_input(variants: Vec<VariantDef>) -> DeriveInput {
    DeriveInput { ident: 100, generics: no_generics(), data: Data::Enum(variants), span: 7 }
}

#[test]
fn default_struct_mapper_concatenates_field_names_in_order() {
    let input = struct_input(Fields::Named(vec![named(1), named(2), named(3)]));
    let mut g = DeriveGenerator::build_for(input, path(50));
    g.data_support(DataSupport { bits: DATA_STRUCT });
    g.function(FnMapper::Identity);
    g.map_field(FieldMapper::EmitName);
    let (out, diag) = g.to_tokens();
    assert!(diag.is_none());
    assert_eq!(
        out,
        vec![
            Tok::KwImpl,
            Tok::Ident(50),
            Tok::KwFor,
            Tok::Ident(100),
            Tok::LBrace,
            Tok::Ident(1),
            Tok::Ident(2),
            Tok::Ident(3),
            Tok::RBrace,
        ]
    );
}

#[test]
fn default_enum_mapper_emits_one_arm_per_variant_in_order() {
    let v1 = VariantDef { ident: 11, fields: Fields::Unnamed(vec![unnamed()]), span: 0 };
    let v2 = VariantDef { ident: 12, fields: Fields::Unit, span: 0 };
    let mut g = DeriveGenerator::build_for(enum_input(vec![v1, v2]), path(50));
    g.data_support(DataSupport { bits: DATA_ENUM });
    g.function(FnMapper::Identity);
    g.map_field(FieldMapper::EmitName);
    let (out, diag) = g.to_tokens();
    assert!(diag.is_none());
    assert_eq!(
        out,
        vec![
            Tok::KwImpl,
            Tok::Ident(50),
            Tok::KwFor,
            Tok::Ident(100),
            Tok::LBrace,
            Tok::KwMatch,
            Tok::KwSelf,
            Tok::LBrace,
            Tok::Ident(100),
            Tok::PathSep,
            Tok::Ident(11),
            Tok::LParen,
            Tok::Binding(0),
            Tok::Comma,
            Tok::RParen,
            Tok::FatArrow,
            Tok::LBrace,
            Tok::Binding(0),
            Tok::RBrace,
            Tok::Comma,
            Tok::Ident(100),
            Tok::PathSep,
            Tok::Ident(12),
            Tok::FatArrow,
            Tok::LBrace,
            Tok::RBrace,
            Tok::Comma,
            Tok::RBrace,
            Tok::RBrace,
        ]
    );
}

#[test]
fn struct_only_generator_rejects_enum() {
    let v = VariantDef { ident: 11, fields: Fields::Unit, span: 0 };
    let mut g = DeriveGenerator::build_for(enum_input(vec![v]), path(50));
    g.data_support(DataSupport { bits: DATA_STRUCT });
    let (out, diag) = g.to_tokens();
    assert!(out.is_empty());
    let e = diag.unwrap();
    assert_eq!(e.diagnostic.kind, DiagKind::UnsupportedDataKind(DataShape::Enum));
    assert_eq!(e.diagnostic.level, Level::Error);
    assert_eq!(e.diagnostic.span, 7);
    assert_eq!(e.derived_trait, 50);
    assert_eq!(e.note_span, CALL_SITE);
}

#[test]
fn enum_only_generator_rejects_struct() {
    let mut g = DeriveGenerator::build_for(struct_input(Fields::Unit), path(50));
    g.data_support(DataSupport { bits: DATA_ENUM });
    let (out, diag) = g.to_tokens();
    assert!(out.is_empty());
    let e = diag.unwrap();
    assert_eq!(e.diagnostic.kind, DiagKind::UnsupportedDataKind(DataShape::Struct));
}

#[test]
fn union_rejected_when_not_supported() {
    let input = DeriveInput {
        ident: 100,
        generics: no_generics(),
        data: Data::Union(vec![named(1)]),
        span: 7,
    };
    let mut g = DeriveGenerator::build_for(input, path(50));
    g.data_support(DataSupport { bits: DATA_STRUCT | DATA_ENUM });
    let (out, diag) = g.to_tokens();
    assert!(out.is_empty());
    let e = diag.unwrap();
    assert_eq!(e.diagnostic.kind, DiagKind::UnsupportedDataKind(DataShape::Union));
}

#[test]
fn no_generic_support_rejects_first_parameter() {
    let input = DeriveInput {
        ident: 100,
        generics: Generics {
            params: vec![
                GenericParam::Lifetime { ident: 30, span: 9 },
                GenericParam::Type { ident: 31, bounds: vec![], span: 10 },
            ],
            where_preds: vec![],
        },
        data: Data::Struct(Fields::Unit),
        span: 7,
    };
    let mut g = DeriveGenerator::build_for(input, path(50));
    g.data_support(DataSupport { bits: DATA_STRUCT });
    let (out, diag) = g.to_tokens();
    assert!(out.is_empty());
    let e = diag.unwrap();
    assert_eq!(e.diagnostic.kind, DiagKind::UnsupportedGenericKind(GenericKind::Lifetime));
    assert_eq!(e.diagnostic.span, 9);
}

#[test]
fn failing_struct_validator_reports_decorated_diagnostic() {
    let bad = Diagnostic { level: Level::Warning, span: 42, kind: DiagKind::Custom(77) };
    let mut g = DeriveGenerator::build_for(struct_input(Fields::Unit), path(50));
    g.data_support(DataSupport { bits: DATA_STRUCT });
    g.validate_struct(Validator::Reject(bad));
    let (out, diag) = g.to_tokens();
    assert!(out.is_empty());
    let e = diag.unwrap();
    assert_eq!(e.diagnostic, bad);
    assert_eq!(e.derived_trait, 50);
    assert_eq!(e.note_span, CALL_SITE);
}

#[test]
fn require_items_validator_rejects_empty_enum() {
    let mut g = DeriveGenerator::build_for(enum_input(vec![]), path(50));
    g.data_support(DataSupport { bits: DATA_ENUM });
    g.validate_enum(Validator::RequireItems(55));
    let (out, diag) = g.to_tokens();
    assert!(out.is_empty());
    let e = diag.unwrap();
    assert_eq!(e.diagnostic.kind, DiagKind::Custom(55));
    assert_eq!(e.diagnostic.level, Level::Error);
    assert_eq!(e.diagnostic.span, 7);
}

#[test]
fn require_items_validator_accepts_populated_struct() {
    let mut g =
        DeriveGenerator::build_for(struct_input(Fields::Named(vec![named(1)])), path(50));
    g.data_support(DataSupport { bits: DATA_STRUCT });
    g.validate_struct(Validator::RequireItems(55));
    g.function(FnMapper::Identity);
    g.map_field(FieldMapper::EmitName);
    let (out, diag) = g.to_tokens();
    assert!(diag.is_none());
    assert!(!out.is_empty());
}

#[test]
fn empty_trait_path_drops_the_diagnostic() {
    let mut g = DeriveGenerator::build_for(
        struct_input(Fields::Unit),
        TraitPath { segments: vec![], args: vec![] },
    );
    g.data_support(DataSupport { bits: DATA_ENUM });
    let (out, diag) = g.to_tokens();
    assert!(out.is_empty());
    assert!(diag.is_none());
}

#[test]
fn run_is_idempotent() {
    let v1 = VariantDef { ident: 11, fields: Fields::Unnamed(vec![unnamed()]), span: 0 };
    let v2 = VariantDef { ident: 12, fields: Fields::Unit, span: 0 };
    let mut g = DeriveGenerator::build_for(enum_input(vec![v1, v2]), path(50));
    g.data_support(DataSupport { bits: DATA_ENUM });
    g.function(FnMapper::Identity);
    g.map_field(FieldMapper::EmitName);
    let first = g.to_tokens();
    let second = g.to_tokens();
    assert_eq!(first, second);
}

#[test]
fn null_enum_mapper_concatenates_without_match() {
    let v1 = VariantDef { ident: 11, fields: Fields::Unnamed(vec![unnamed()]), span: 0 };
    let v2 = VariantDef { ident: 12, fields: Fields::Unit, span: 0 };
    let mut g = DeriveGenerator::build_for(enum_input(vec![v1, v2]), path(50));
    g.data_support(DataSupport { bits: DATA_ENUM });
    g.function(FnMapper::Identity);
    g.map_enum(EnumMapper::Null);
    g.map_field(FieldMapper::EmitName);
    let (out, diag) = g.to_tokens();
    assert!(diag.is_none());
    assert_eq!(
        out,
        vec![
            Tok::KwImpl,
            Tok::Ident(50),
            Tok::KwFor,
            Tok::Ident(100),
            Tok::LBrace,
            Tok::LBrace,
            Tok::Binding(0),
            Tok::RBrace,
            Tok::LBrace,
            Tok::RBrace,
            Tok::RBrace,
        ]
    );
}

#[test]
fn variant_mapper_override_short_circuits_field_mapper() {
    let v1 = VariantDef { ident: 11, fields: Fields::Unnamed(vec![unnamed()]), span: 0 };
    let v2 = VariantDef { ident: 12, fields: Fields::Unit, span: 0 };
    let mut g = DeriveGenerator::build_for(enum_input(vec![v1, v2]), path(50));
    g.data_support(DataSupport { bits: DATA_ENUM });
    g.function(FnMapper::Identity);
    g.map_variant(VariantMapper::Constant(vec![Tok::Ident(8)]));
    let (out, diag) = g.to_tokens();
    assert!(diag.is_none());
    assert_eq!(
        out,
        vec![
            Tok::KwImpl,
            Tok::Ident(50),
            Tok::KwFor,
            Tok::Ident(100),
            Tok::LBrace,
            Tok::KwMatch,
            Tok::KwSelf,
            Tok::LBrace,
            Tok::Ident(100),
            Tok::PathSep,
            Tok::Ident(11),
            Tok::LParen,
            Tok::Binding(0),
            Tok::Comma,
            Tok::RParen,
            Tok::FatArrow,
            Tok::Ident(8),
            Tok::Comma,
            Tok::Ident(100),
            Tok::PathSep,
            Tok::Ident(12),
            Tok::FatArrow,
            Tok::Ident(8),
            Tok::Comma,
            Tok::RBrace,
            Tok::RBrace,
        ]
    );
}

#[test]
fn constant_field_mapper_repeats_tokens_per_field() {
    let input = struct_input(Fields::Unnamed(vec![unnamed(), unnamed()]));
    let mut g = DeriveGenerator::build_for(input, path(50));
    g.data_support(DataSupport { bits: DATA_STRUCT });
    g.function(FnMapper::Identity);
    g.map_field(FieldMapper::Constant(vec![Tok::Ident(5)]));
    let (out, _) = g.to_tokens();
    assert_eq!(
        out,
        vec![
            Tok::KwImpl,
            Tok::Ident(50),
            Tok::KwFor,
            Tok::Ident(100),
            Tok::LBrace,
            Tok::Ident(5),
            Tok::Ident(5),
            Tok::RBrace,
        ]
    );
}

#[test]
fn default_traversal_reads_most_recent_field_mapper() {
    let input = struct_input(Fields::Named(vec![named(1), named(2)]));
    let mut g = DeriveGenerator::build_for(input, path(50));
    g.data_support(DataSupport { bits: DATA_STRUCT });
    g.function(FnMapper::Wrap(vec![Tok::Ident(201)]));
    g.map_field(FieldMapper::Constant(vec![Tok::Ident(41)]));
    g.function(FnMapper::Wrap(vec![Tok::Ident(202)]));
    g.map_field(FieldMapper::Constant(vec![Tok::Ident(42)]));
    let (out, diag) = g.to_tokens();
    assert!(diag.is_none());
    assert_eq!(
        out,
        vec![
            Tok::KwImpl,
            Tok::Ident(50),
            Tok::KwFor,
            Tok::Ident(100),
            Tok::LBrace,
            Tok::Ident(201),
            Tok::LBrace,
            Tok::Ident(42),
            Tok::Ident(42),
            Tok::RBrace,
            Tok::Ident(202),
            Tok::LBrace,
            Tok::Ident(42),
            Tok::Ident(42),
            Tok::RBrace,
            Tok::RBrace,
        ]
    );
}

#[test]
fn full_header_composition() {
    let input = DeriveInput {
        ident: 100,
        generics: Generics {
            params: vec![GenericParam::Type { ident: 61, bounds: vec![60], span: 0 }],
            where_preds: vec![vec![Tok::Ident(70), Tok::Colon, Tok::Ident(71)]],
        },
        data: Data::Struct(Fields::Named(vec![named(1)])),
        span: 7,
    };
    let tp = TraitPath {
        segments: vec![40, 50],
        args: vec![GenericArg::Lifetime(80), GenericArg::Lifetime(81)],
    };
    let mut g = DeriveGenerator::build_for(input, tp);
    g.generic_support(GenericSupport::all());
    g.data_support(DataSupport { bits: DATA_STRUCT });
    g.map_type_generic(BoundMapper { bound: 90 });
    g.function(FnMapper::Wrap(vec![Tok::Ident(99)]));
    g.map_field(FieldMapper::EmitName);
    let (out, diag) = g.to_tokens();
    assert!(diag.is_none());
    assert_eq!(
        out,
        vec![
            Tok::KwImpl,
            Tok::Lt,
            Tok::Lifetime(81),
            Tok::Comma,
            Tok::Lifetime(80),
            Tok::Comma,
            Tok::Ident(61),
            Tok::Colon,
            Tok::Ident(60),
            Tok::Plus,
            Tok::Comma,
            Tok::Gt,
            Tok::Ident(40),
            Tok::PathSep,
            Tok::Ident(50),
            Tok::Lt,
            Tok::Lifetime(80),
            Tok::Comma,
            Tok::Lifetime(81),
            Tok::Comma,
            Tok::Gt,
            Tok::KwFor,
            Tok::Ident(100),
            Tok::Lt,
            Tok::Ident(61),
            Tok::Comma,
            Tok::Gt,
            Tok::KwWhere,
            Tok::Ident(70),
            Tok::Colon,
            Tok::Ident(71),
            Tok::Comma,
            Tok::Ident(61),
            Tok::Colon,
            Tok::Ident(90),
            Tok::Comma,
            Tok::LBrace,
            Tok::Ident(99),
            Tok::LBrace,
            Tok::Ident(1),
            Tok::RBrace,
            Tok::RBrace,
        ]
    );
}

#[test]
fn const_and_lifetime_parameters_render_in_header() {
    let input = DeriveInput {
        ident: 100,
        generics: Generics {
            params: vec![
                GenericParam::Const { ident: 62, span: 0 },
                GenericParam::Lifetime { ident: 63, span: 0 },
            ],
            where_preds: vec![],
        },
        data: Data::Struct(Fields::Named(vec![named(1)])),
        span: 7,
    };
    let mut g = DeriveGenerator::build_for(input, path(50));
    g.generic_support(GenericSupport::all());
    g.data_support(DataSupport { bits: DATA_STRUCT });
    g.function(FnMapper::Identity);
    g.map_field(FieldMapper::EmitName);
    let (out, diag) = g.to_tokens();
    assert!(diag.is_none());
    assert_eq!(
        out,
        vec![
            Tok::KwImpl,
            Tok::Lt,
            Tok::KwConst,
            Tok::Ident(62),
            Tok::Comma,
            Tok::Lifetime(63),
            Tok::Comma,
            Tok::Gt,
            Tok::Ident(50),
            Tok::KwFor,
            Tok::Ident(100),
            Tok::Lt,
            Tok::Ident(62),
            Tok::Comma,
            Tok::Lifetime(63),
            Tok::Comma,
            Tok::Gt,
            Tok::LBrace,
            Tok::Ident(1),
            Tok::RBrace,
        ]
    );
}

#[test]
fn constant_enum_mapper_short_circuits_traversal() {
    let v1 = VariantDef { ident: 11, fields: Fields::Unnamed(vec![unnamed()]), span: 0 };
    let mut g = DeriveGenerator::build_for(enum_input(vec![v1]), path(50));
    g.data_support(DataSupport { bits: DATA_ENUM });
    g.function(FnMapper::Identity);
    g.map_enum(EnumMapper::Constant(vec![Tok::Ident(33)]));
    let (out, diag) = g.to_tokens();
    assert!(diag.is_none());
    assert_eq!(
        out,
        vec![
            Tok::KwImpl,
            Tok::Ident(50),
            Tok::KwFor,
            Tok::Ident(100),
            Tok::LBrace,
            Tok::Ident(33),
            Tok::RBrace,
        ]
    );
}

#[test]
fn constant_struct_mapper_short_circuits_traversal() {
    let input = struct_input(Fields::Named(vec![named(1)]));
    let mut g = DeriveGenerator::build_for(input, path(50));
    g.data_support(DataSupport { bits: DATA_STRUCT });
    g.function(FnMapper::Identity);
    g.struct_mappers[0] = StructMapper::Constant(vec![Tok::Ident(44)]);
    let (out, diag) = g.to_tokens();
    assert!(diag.is_none());
    assert_eq!(
        out,
        vec![
            Tok::KwImpl,
            Tok::Ident(50),
            Tok::KwFor,
            Tok::Ident(100),
            Tok::LBrace,
            Tok::Ident(44),
            Tok::RBrace,
        ]
    );
}

#[test]
fn default_struct_mapper_direct_output() {
    let input = struct_input(Fields::Unit);
    let mut g = DeriveGenerator::build_for(input, path(50));
    g.function(FnMapper::Identity);
    g.map_field(FieldMapper::EmitName);
    let fields = Fields::Named(vec![named(1), named(2)]);
    assert_eq!(default_struct_mapper(&g, &fields), vec![Tok::Ident(1), Tok::Ident(2)]);
}

#[test]
fn pattern_tokens_by_shape() {
    assert_eq!(
        pattern_toks(&Fields::Named(vec![named(1), named(2)])),
        vec![Tok::LBrace, Tok::Ident(1), Tok::Comma, Tok::Ident(2), Tok::Comma, Tok::RBrace]
    );
    assert_eq!(
        pattern_toks(&Fields::Unnamed(vec![unnamed(), unnamed()])),
        vec![
            Tok::LParen,
            Tok::Binding(0),
            Tok::Comma,
            Tok::Binding(1),
            Tok::Comma,
            Tok::RParen,
        ]
    );
    assert_eq!(pattern_toks(&Fields::Unit), vec![]);
}
