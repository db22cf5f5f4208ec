//! The per-field structural view handed to a field mapper.

use vstd::prelude::*;
use crate::input::FieldDef;

verus! {

/// A view over one field during traversal: its zero-based position in the
/// enclosing field list, whether it occurs inside a pattern that has
/// already bound a name for it, and the underlying field.
#[derive(Clone, Copy, PartialEq, Eq, Debug)]
pub struct Field {
    pub matched: bool,
    pub index: usize,
    pub field: FieldDef,
}

} // verus!
