//! 4×4 transformation matrices as the foreign library stores them.
//!
//! Elements are kept as the bit patterns of their `f32` values, in
//! column-major order; the matrix also records what kind of transform it is.
use vstd::prelude::*;

verus! {

/// Purpose of a matrix.
#[derive(Debug, Clone, Copy, PartialEq, Eq, Structural)]
pub enum TransformType {
    Translate,
    Scale,
    Rotate,
    Other,
}

impl TransformType {
    pub open spec fn raw_spec(self) -> u32 {
        match self {
            TransformType::Translate => 1,
            TransformType::Scale => 2,
            TransformType::Rotate => 4,
            TransformType::Other => 8,
        }
    }

    pub fn to_raw(self) -> (r: u32)
        ensures
            r == self.raw_spec(),
    {
        match self {
            TransformType::Translate => 1,
            TransformType::Scale => 2,
            TransformType::Rotate => 4,
            TransformType::Other => 8,
        }
    }

    /// Decodes a raw value; anything unknown reads as `Other`.
    pub fn from_raw(raw: u32) -> (r: TransformType)
        ensures
            (raw == 1 || raw == 2 || raw == 4 || raw == 8) ==> r.raw_spec() == raw,
            !(raw == 1 || raw == 2 || raw == 4 || raw == 8) ==> r == TransformType::Other,
    {
        match raw {
            1 => TransformType::Translate,
            2 => TransformType::Scale,
            4 => TransformType::Rotate,
            _ => TransformType::Other,
        }
    }
}

/// A matrix: sixteen elements (as `f32` bit patterns, column-major) and the
/// raw transform type.
pub struct Matrix {
    d: [u32; 16],
    type_: u32,
}

impl Matrix {
    pub closed spec fn elements(&self) -> Seq<u32> {
        self.d@
    }

    pub closed spec fn raw_type_spec(&self) -> u32 {
        self.type_
    }

    pub fn new(type_: TransformType, d: [u32; 16]) -> (r: Matrix)
        ensures
            r.elements() == d@,
            r.raw_type_spec() == type_.raw_spec(),
    {
        Matrix { d, type_: type_.to_raw() }
    }

    /// A matrix as the foreign side hands it over, type field unchecked.
    pub fn from_raw(type_: u32, d: [u32; 16]) -> (r: Matrix)
        ensures
            r.elements() == d@,
            r.raw_type_spec() == type_,
    {
        Matrix { d, type_ }
    }

    pub fn raw_type(&self) -> (r: u32)
        ensures
            r == self.raw_type_spec(),
    {
        self.type_
    }

    /// The transform type; an unknown raw value reads as `Other`.
    pub fn transform_type(&self) -> (r: TransformType)
        ensures
            r == TransformType::from_raw_spec(self.raw_type_spec()),
    {
        TransformType::from_raw(self.type_)
    }

    /// Bit pattern of element `i`.
    pub fn element(&self, i: usize) -> (r: u32)
        requires
            i < 16,
        ensures
            r == self.elements()[i as int],
    {
        self.d[i]
    }
}

impl TransformType {
    pub open spec fn from_raw_spec(raw: u32) -> TransformType {
        if raw == 1 {
            TransformType::Translate
        } else if raw == 2 {
            TransformType::Scale
        } else if raw == 4 {
            TransformType::Rotate
        } else {
            TransformType::Other
        }
    }
}

} // verus!
