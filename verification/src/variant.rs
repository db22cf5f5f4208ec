//! The per-variant structural view handed to a variant mapper.

use vstd::prelude::*;
use crate::input::VariantDef;
use crate::input::VariantView;

verus! {

/// A view over one enum variant during traversal: its zero-based position
/// in the enclosing enum, the enclosing type's identifier (needed to form
/// qualified pattern paths), and the underlying variant.
#[derive(Clone, PartialEq, Eq, Debug)]
pub struct Variant {
    pub index: usize,
    pub parent: u64,
    pub variant: VariantDef,
}

impl View for Variant {
    type V = VariantView;

    open spec fn view(&self) -> VariantView {
        self.variant@
    }
}

} // verus!
