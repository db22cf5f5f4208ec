//! User-supplied structural validators: the last stage of validation,
//! selected by the declaration's actual data kind.

use vstd::prelude::*;
use crate::diagnostic::DiagKind;
use crate::diagnostic::Diagnostic;
use crate::diagnostic::Level;
use crate::input::Fields;
use crate::input::VariantDef;

verus! {

/// A structural validator strategy. One validator of each flavour is
/// configured per generator; the struct validator sees struct fields, the
/// enum validator sees the variant list.
#[derive(Clone, Copy, PartialEq, Eq, Structural, Debug)]
pub enum Validator {
    /// Accept every declaration.
    Accept,
    /// Reject every declaration with the given diagnostic.
    Reject(Diagnostic),
    /// Reject a declaration whose payload is empty (a struct without
    /// fields, an enum without variants) with an error carrying the given
    /// interned message at the declaration's span.
    RequireItems(u64),
}

/// The verdict of a validator on a payload with `count` items, where the
/// declaration sits at `span`.
pub open spec fn s_verdict(v: Validator, count: nat, span: u64) -> Result<(), Diagnostic> {
    match v {
        Validator::Accept => Ok(()),
        Validator::Reject(d) => Err(d),
        Validator::RequireItems(msg) => if count == 0 {
            Err(Diagnostic { level: Level::Error, span: span, kind: DiagKind::Custom(msg) })
        } else {
            Ok(())
        },
    }
}

impl Validator {
    /// Run this validator as a struct validator over the given fields.
    pub fn check_struct(&self, fields: &Fields, span: u64) -> (r: Result<(), Diagnostic>)
        ensures
            r == s_verdict(*self, fields@.fields.len(), span),
    {
        match self {
            Validator::Accept => Ok(()),
            Validator::Reject(d) => Err(*d),
            Validator::RequireItems(msg) => {
                let n = match fields {
                    Fields::Named(fs) => fs.len(),
                    Fields::Unnamed(fs) => fs.len(),
                    Fields::Unit => 0,
                };
                if n == 0 {
                    Err(
                        Diagnostic {
                            level: Level::Error,
                            span: span,
                            kind: DiagKind::Custom(*msg),
                        },
                    )
                } else {
                    Ok(())
                }
            },
        }
    }

    /// Run this validator as an enum validator over the given variants.
    pub fn check_enum(&self, variants: &Vec<VariantDef>, span: u64) -> (r: Result<
        (),
        Diagnostic,
    >)
        ensures
            r == s_verdict(*self, variants@.len(), span),
    {
        match self {
            Validator::Accept => Ok(()),
            Validator::Reject(d) => Err(*d),
            Validator::RequireItems(msg) => {
                if variants.len() == 0 {
                    Err(
                        Diagnostic {
                            level: Level::Error,
                            span: span,
                            kind: DiagKind::Custom(*msg),
                        },
                    )
                } else {
                    Ok(())
                }
            },
        }
    }
}

} // verus!
