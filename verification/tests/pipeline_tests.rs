use devise_core::Data;
use devise_core::DeriveGenerator;
use devise_core::DeriveInput;
use devise_core::EnumMapper;
use devise_core::FieldDef;
use devise_core::FieldMapper;
use devise_core::Fields;
use devise_core::FnMapper;
use devise_core::Generics;
use devise_core::StructMapper;
use devise_core::Tok;
use devise_core::TraitPath;
use devise_core::VariantMapper;

fn unit_struct_input() -> DeriveInput {
    DeriveInput {
        ident: 100,
        generics: Generics { params: vec![], where_preds: vec![] },
        data: Data::Struct(Fields::Unit),
        span: 7,
    }
}

fn trait_path() -> TraitPath {
    TraitPath { segments: vec![50], args: vec![] }
}

#[test]
fn build_for_starts_empty() {
    let g = DeriveGenerator::build_for(unit_struct_input(), trait_path());
    assert_eq!(g.generic_support.bits, 0);
    assert_eq!(g.data_support.bits, 0);
    assert!(g.type_generic_mapper.is_none());
    assert_eq!(g.functions.len(), 0);
    assert_eq!(g.enum_mappers.len(), 0);
    assert_eq!(g.struct_mappers.len(), 0);
    assert_eq!(g.variant_mappers.len(), 0);
    assert_eq!(g.field_mappers.len(), 0);
}

#[test]
fn registration_grows_each_list_by_one_with_defaults() {
    let mut g = DeriveGenerator::build_for(unit_struct_input(), trait_path());
    g.function(FnMapper::Identity);
    assert_eq!(g.functions.len(), 1);
    assert_eq!(g.enum_mappers, vec![EnumMapper::Default]);
    assert_eq!(g.struct_mappers, vec![StructMapper::Default]);
    assert_eq!(g.variant_mappers, vec![VariantMapper::Default]);
    assert_eq!(g.field_mappers, vec![FieldMapper::Unset]);
    g.function(FnMapper::Wrap(vec![Tok::Ident(9)]));
    assert_eq!(g.functions.len(), 2);
    assert_eq!(g.enum_mappers, vec![EnumMapper::Default, EnumMapper::Default]);
    assert_eq!(g.struct_mappers, vec![StructMapper::Default, StructMapper::Default]);
    assert_eq!(g.variant_mappers, vec![VariantMapper::Default, VariantMapper::Default]);
    assert_eq!(g.field_mappers, vec![FieldMapper::Unset, FieldMapper::Unset]);
}

#[test]
fn override_before_any_registration_is_a_no_op() {
    let mut g = DeriveGenerator::build_for(unit_struct_input(), trait_path());
    let before = g.clone();
    g.map_field(FieldMapper::EmitName);
    g.map_enum(EnumMapper::Null);
    g.map_variant(VariantMapper::Constant(vec![Tok::Comma]));
    assert_eq!(g, before);
}

#[test]
fn override_mutates_only_most_recent_slot() {
    let mut g = DeriveGenerator::build_for(unit_struct_input(), trait_path());
    g.function(FnMapper::Identity);
    g.map_field(FieldMapper::Constant(vec![Tok::Ident(1)]));
    g.map_enum(EnumMapper::Null);
    g.function(FnMapper::Identity);
    g.map_field(FieldMapper::Constant(vec![Tok::Ident(2)]));
    g.map_enum(EnumMapper::Constant(vec![Tok::Ident(3)]));
    g.map_variant(VariantMapper::Constant(vec![Tok::Ident(4)]));
    assert_eq!(
        g.field_mappers,
        vec![
            FieldMapper::Constant(vec![Tok::Ident(1)]),
            FieldMapper::Constant(vec![Tok::Ident(2)]),
        ]
    );
    assert_eq!(
        g.enum_mappers,
        vec![EnumMapper::Null, EnumMapper::Constant(vec![Tok::Ident(3)])]
    );
    assert_eq!(
        g.variant_mappers,
        vec![VariantMapper::Default, VariantMapper::Constant(vec![Tok::Ident(4)])]
    );
    assert_eq!(g.struct_mappers, vec![StructMapper::Default, StructMapper::Default]);
}

#[test]
fn getters_hand_out_last_slot() {
    let mut g = DeriveGenerator::build_for(unit_struct_input(), trait_path());
    g.function(FnMapper::Identity);
    g.map_field(FieldMapper::EmitName);
    g.map_variant(VariantMapper::Constant(vec![Tok::Comma]));
    assert_eq!(*g.field_mapper(), FieldMapper::EmitName);
    assert_eq!(*g.variant_mapper(), VariantMapper::Constant(vec![Tok::Comma]));
}

#[test]
fn registration_starts_from_the_unusable_field_stub() {
    assert_eq!(devise_core::default_field_mapper(), FieldMapper::Unset);
    let mut g = DeriveGenerator::build_for(unit_struct_input(), trait_path());
    g.function(FnMapper::Identity);
    assert_eq!(*g.field_mapper(), devise_core::default_field_mapper());
}

#[test]
fn field_defs_flattens_every_shape() {
    let f = FieldDef { ident: Some(1), ty: 2, span: 3 };
    assert_eq!(Fields::Named(vec![f]).field_defs(), vec![f]);
    assert_eq!(Fields::Unnamed(vec![f, f]).field_defs(), vec![f, f]);
    assert_eq!(Fields::Unit.field_defs(), vec![]);
}
