//! How a scalar is encoded on the device.
//!
//! Every scalar is stored in 32-bit units. Most element types take one unit
//! per scalar; booleans are packed, one per bit.

use vstd::prelude::*;

verus! {

/// Number of bits in one encoded unit.
pub const UNIT_BITS: usize = 32;

/// Number of bytes in one encoded unit.
pub const UNIT_BYTES: usize = 4;

/// The encoding of a scalar, as a value.
#[derive(Clone, Copy, Debug, PartialEq, Eq, Hash, Structural)]
pub enum ElementType {
    /// 32-bit IEEE 754 floating point.
    Float32,
    /// 32-bit two's complement integer.
    Int32,
    /// 32-bit unsigned integer.
    Uint32,
    /// Truth value, one bit of a unit.
    Bool,
}

impl ElementType {
    /// Number of scalars that share one encoded unit.
    pub open spec fn spec_num_packed(self) -> nat {
        if self is Bool {
            UNIT_BITS as nat
        } else {
            1
        }
    }

    /// Whether arithmetic is defined on the scalars.
    pub open spec fn spec_is_number(self) -> bool {
        !(self is Bool)
    }

    /// Number of scalars that share one encoded unit.
    pub fn num_packed(self) -> (n: usize)
        ensures
            n == self.spec_num_packed(),
    {
        match self {
            ElementType::Bool => UNIT_BITS,
            _ => 1,
        }
    }

    /// Whether arithmetic is defined on the scalars.
    pub fn is_number(self) -> (b: bool)
        ensures
            b == self.spec_is_number(),
    {
        match self {
            ElementType::Bool => false,
            _ => true,
        }
    }
}

/// A type that stands for a scalar encoding at compile time.
pub trait Element: Sized + 'static {
    /// The encoding this type stands for.
    spec fn spec_element_type() -> ElementType;

    /// The encoding this type stands for.
    fn element_type() -> (t: ElementType)
        ensures
            t == Self::spec_element_type(),
    ;

    /// Number of scalars of this type that share one encoded unit.
    fn num_packed() -> (n: usize)
        ensures
            n == Self::spec_element_type().spec_num_packed(),
    {
        Self::element_type().num_packed()
    }
}

/// An element type on which arithmetic is defined.
pub trait Number: Element {
    /// The encoding of a number is an arithmetic one.
    proof fn is_arithmetic()
        ensures
            Self::spec_element_type().spec_is_number(),
    ;
}

/// Stands for 32-bit floating point scalars, whose values never reach this
/// crate.
#[derive(Clone, Copy, Debug, PartialEq, Eq)]
pub struct Float32;

impl Element for Float32 {
    open spec fn spec_element_type() -> ElementType {
        ElementType::Float32
    }

    fn element_type() -> (t: ElementType) {
        ElementType::Float32
    }
}

impl Number for Float32 {
    proof fn is_arithmetic() {
    }
}

impl Element for i32 {
    open spec fn spec_element_type() -> ElementType {
        ElementType::Int32
    }

    fn element_type() -> (t: ElementType) {
        ElementType::Int32
    }
}

impl Number for i32 {
    proof fn is_arithmetic() {
    }
}

impl Element for u32 {
    open spec fn spec_element_type() -> ElementType {
        ElementType::Uint32
    }

    fn element_type() -> (t: ElementType) {
        ElementType::Uint32
    }
}

impl Number for u32 {
    proof fn is_arithmetic() {
    }
}

impl Element for bool {
    open spec fn spec_element_type() -> ElementType {
        ElementType::Bool
    }

    fn element_type() -> (t: ElementType) {
        ElementType::Bool
    }
}

} // verus!
