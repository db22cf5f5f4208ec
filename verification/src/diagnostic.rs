//! User-facing failure reports: a diagnostic points at a span with a
//! severity and a reason; a failed run additionally carries a contextual
//! note naming the trait that was being derived.

use vstd::prelude::*;
use crate::support::GenericKind;

verus! {

/// The severity of a diagnostic.
#[derive(Clone, Copy, PartialEq, Eq, Structural, Debug)]
pub enum Level {
    Error,
    Warning,
    Note,
    Help,
}

/// The coarse shape of a declaration's data payload, as named in
/// unsupported-kind reports.
#[derive(Clone, Copy, PartialEq, Eq, Structural, Debug)]
pub enum DataShape {
    Struct,
    Enum,
    Union,
}

/// Why a derivation was rejected.
#[derive(Clone, Copy, PartialEq, Eq, Structural, Debug)]
pub enum DiagKind {
    /// The declaration's data kind is not in the configured capability set.
    UnsupportedDataKind(DataShape),
    /// A generic parameter's kind is not in the configured capability set.
    UnsupportedGenericKind(GenericKind),
    /// A user-supplied validator rejected the declaration; the payload is
    /// the validator's interned message.
    Custom(u64),
}

/// A span-attributed failure report.
#[derive(Clone, Copy, PartialEq, Eq, Structural, Debug)]
pub struct Diagnostic {
    pub level: Level,
    pub span: u64,
    pub kind: DiagKind,
}

/// A diagnostic as a failed run hands it out: the underlying report,
/// decorated with a note naming the trait that was being derived. The
/// note's wording follows the diagnostic's severity; it is attached to
/// `note_span`, a caller-chosen default position.
#[derive(Clone, Copy, PartialEq, Eq, Structural, Debug)]
pub struct EmittedDiagnostic {
    pub diagnostic: Diagnostic,
    pub note_span: u64,
    pub derived_trait: u64,
}

} // verus!
