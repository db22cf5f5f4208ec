//! Capability sets: small bitsets describing which structural shapes
//! (generic-parameter kinds, data kinds) a generator accepts.

use vstd::prelude::*;

verus! {

/// A kind of generic parameter a declaration may carry.
#[derive(Clone, Copy, PartialEq, Eq, Structural, Debug)]
pub enum GenericKind {
    Type,
    Lifetime,
    Const,
}

/// A kind of data payload a declaration may carry. Struct declarations are
/// split into tuple (unnamed fields) and named forms so that a generator
/// can opt into either independently.
#[derive(Clone, Copy, PartialEq, Eq, Structural, Debug)]
pub enum DataKind {
    TupleStruct,
    NamedStruct,
    Enum,
    Union,
}

pub const GENERIC_NONE: u8 = 0;
pub const GENERIC_TYPE: u8 = 1;
pub const GENERIC_LIFETIME: u8 = 2;
pub const GENERIC_CONST: u8 = 4;
pub const GENERIC_ALL: u8 = 7;

pub const DATA_NONE: u8 = 0;
pub const DATA_TUPLE_STRUCT: u8 = 1;
pub const DATA_NAMED_STRUCT: u8 = 2;
pub const DATA_STRUCT: u8 = 3;
pub const DATA_ENUM: u8 = 4;
pub const DATA_UNION: u8 = 8;
pub const DATA_ALL: u8 = 15;

/// The bit that stands for one generic-parameter kind.
pub open spec fn generic_kind_bit(k: GenericKind) -> u8 {
    match k {
        GenericKind::Type => GENERIC_TYPE,
        GenericKind::Lifetime => GENERIC_LIFETIME,
        GenericKind::Const => GENERIC_CONST,
    }
}

/// The bit that stands for one data kind.
pub open spec fn data_kind_bit(k: DataKind) -> u8 {
    match k {
        DataKind::TupleStruct => DATA_TUPLE_STRUCT,
        DataKind::NamedStruct => DATA_NAMED_STRUCT,
        DataKind::Enum => DATA_ENUM,
        DataKind::Union => DATA_UNION,
    }
}

/// The set of generic-parameter kinds a generator accepts.
#[derive(Clone, Copy, PartialEq, Eq, Structural, Debug)]
pub struct GenericSupport {
    pub bits: u8,
}

/// The set of data kinds a generator accepts.
#[derive(Clone, Copy, PartialEq, Eq, Structural, Debug)]
pub struct DataSupport {
    pub bits: u8,
}

impl GenericSupport {
    /// Containment of a required shape: bitwise AND non-zero, or an exact
    /// match when nothing is required.
    pub open spec fn spec_supports(self, required: GenericSupport) -> bool {
        if required.bits == 0 {
            self.bits == 0
        } else {
            self.bits & required.bits != 0
        }
    }

    /// Whether one generic-parameter kind's bit is set.
    pub open spec fn spec_supports_kind(self, k: GenericKind) -> bool {
        self.bits & generic_kind_bit(k) != 0
    }

    pub fn none() -> (r: GenericSupport)
        ensures
            r.bits == GENERIC_NONE,
    {
        GenericSupport { bits: GENERIC_NONE }
    }

    pub fn all() -> (r: GenericSupport)
        ensures
            r.bits == GENERIC_ALL,
    {
        GenericSupport { bits: GENERIC_ALL }
    }

    /// A pure containment test over a required set of shapes.
    pub fn supports(&self, required: GenericSupport) -> (r: bool)
        ensures
            r == self.spec_supports(required),
    {
        if required.bits == 0 {
            self.bits == 0
        } else {
            self.bits & required.bits != 0
        }
    }

    /// A pure containment test for one generic-parameter kind.
    pub fn supports_kind(&self, k: GenericKind) -> (r: bool)
        ensures
            r == self.spec_supports_kind(k),
    {
        let bit: u8 = match k {
            GenericKind::Type => GENERIC_TYPE,
            GenericKind::Lifetime => GENERIC_LIFETIME,
            GenericKind::Const => GENERIC_CONST,
        };
        self.bits & bit != 0
    }
}

impl DataSupport {
    /// Containment of a required shape: bitwise AND non-zero, or an exact
    /// match when nothing is required.
    pub open spec fn spec_supports(self, required: DataSupport) -> bool {
        if required.bits == 0 {
            self.bits == 0
        } else {
            self.bits & required.bits != 0
        }
    }

    /// Whether one data kind's bit is set.
    pub open spec fn spec_supports_kind(self, k: DataKind) -> bool {
        self.bits & data_kind_bit(k) != 0
    }

    pub fn none() -> (r: DataSupport)
        ensures
            r.bits == DATA_NONE,
    {
        DataSupport { bits: DATA_NONE }
    }

    pub fn all() -> (r: DataSupport)
        ensures
            r.bits == DATA_ALL,
    {
        DataSupport { bits: DATA_ALL }
    }

    /// A pure containment test over a required set of shapes.
    pub fn supports(&self, required: DataSupport) -> (r: bool)
        ensures
            r == self.spec_supports(required),
    {
        if required.bits == 0 {
            self.bits == 0
        } else {
            self.bits & required.bits != 0
        }
    }

    /// A pure containment test for one data kind.
    pub fn supports_kind(&self, k: DataKind) -> (r: bool)
        ensures
            r == self.spec_supports_kind(k),
    {
        let bit: u8 = match k {
            DataKind::TupleStruct => DATA_TUPLE_STRUCT,
            DataKind::NamedStruct => DATA_NAMED_STRUCT,
            DataKind::Enum => DATA_ENUM,
            DataKind::Union => DATA_UNION,
        };
        self.bits & bit != 0
    }
}

/// A kind is supported exactly when its bit is set; the empty set supports
/// no generic-parameter kind, and the full set supports every one.
pub proof fn lemma_generic_supports_kind(s: GenericSupport, k: GenericKind)
    ensures
        s.spec_supports_kind(k) == (s.bits & generic_kind_bit(k) != 0),
        s.bits == GENERIC_NONE ==> !s.spec_supports_kind(k),
        s.bits == GENERIC_ALL ==> s.spec_supports_kind(k),
{
    let b = generic_kind_bit(k);
    assert(b == 1 || b == 2 || b == 4);
    assert(0u8 & b == 0) by (bit_vector);
    assert((b == 1 || b == 2 || b == 4) ==> 7u8 & b != 0) by (bit_vector);
}

/// A kind is supported exactly when its bit is set; the empty set supports
/// no data kind, and the full set supports every one.
pub proof fn lemma_data_supports_kind(s: DataSupport, k: DataKind)
    ensures
        s.spec_supports_kind(k) == (s.bits & data_kind_bit(k) != 0),
        s.bits == DATA_NONE ==> !s.spec_supports_kind(k),
        s.bits == DATA_ALL ==> s.spec_supports_kind(k),
{
    let b = data_kind_bit(k);
    assert(b == 1 || b == 2 || b == 4 || b == 8);
    assert(0u8 & b == 0) by (bit_vector);
    assert((b == 1 || b == 2 || b == 4 || b == 8) ==> 15u8 & b != 0) by (bit_vector);
}

} // verus!
