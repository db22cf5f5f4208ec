//! A helper library for writing derive-style code generators.
//!
//! The library takes an already-parsed type declaration (struct, enum or
//! union), validates that its shape is accepted by the generator's
//! capability sets, walks its structure through a configurable pipeline of
//! mapping strategies, and assembles a token stream for an implementation
//! of the requested trait. Parsing source text into a declaration and
//! pretty-printing the resulting tokens are left to the caller.

pub mod diagnostic;
pub mod field;
pub mod generator;
pub mod input;
pub mod mapper;
pub mod support;
pub mod tokens;
pub mod validator;
pub mod variant;

pub use diagnostic::DataShape;
pub use diagnostic::DiagKind;
pub use diagnostic::Diagnostic;
pub use diagnostic::EmittedDiagnostic;
pub use diagnostic::Level;
pub use field::Field;
pub use generator::DeriveGenerator;
pub use generator::default_enum_mapper;
pub use generator::default_field_mapper;
pub use generator::default_struct_mapper;
pub use generator::default_variant_mapper;
pub use generator::null_enum_mapper;
pub use generator::pattern_toks;
pub use generator::run_field_mapper;
pub use generator::run_variant_mapper;
pub use input::CALL_SITE;
pub use input::Data;
pub use input::DeriveInput;
pub use input::FieldDef;
pub use input::Fields;
pub use input::GenericArg;
pub use input::GenericParam;
pub use input::Generics;
pub use input::TraitPath;
pub use input::VariantDef;
pub use mapper::BoundMapper;
pub use mapper::EnumMapper;
pub use mapper::FieldMapper;
pub use mapper::FnMapper;
pub use mapper::StructMapper;
pub use mapper::VariantMapper;
pub use support::DataKind;
pub use support::DataSupport;
pub use support::GenericKind;
pub use support::GenericSupport;
pub use tokens::Tok;
pub use validator::Validator;
pub use variant::Variant;
