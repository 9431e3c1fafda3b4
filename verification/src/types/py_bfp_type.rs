use vstd::prelude::*;

use crate::types::bfp_type::BfpType;

verus! {

/// The host-facing tag of a wire type or runtime value: which kind of
/// thing it is, with none of the payload.
#[derive(Debug, Clone, Copy, PartialEq, Eq, Structural)]
pub enum PyBfpType {
    UInt8,
    UInt16,
    UInt32,
    UInt64,
    UInt128,
    Int8,
    Int16,
    Int32,
    Int64,
    Int128,
    Float32,
    Float64,
    Bool8,
    Bool16,
    Bool32,
    Bool64,
    Bool128,
    Array,
    Bytes,
    Struct,
}

/// The tag of a wire type.
pub open spec fn spec_py_bfp_type(t: BfpType) -> PyBfpType {
    match t {
        BfpType::UInt8 => PyBfpType::UInt8,
        BfpType::UInt16 => PyBfpType::UInt16,
        BfpType::UInt32 => PyBfpType::UInt32,
        BfpType::UInt64 => PyBfpType::UInt64,
        BfpType::UInt128 => PyBfpType::UInt128,
        BfpType::Int8 => PyBfpType::Int8,
        BfpType::Int16 => PyBfpType::Int16,
        BfpType::Int32 => PyBfpType::Int32,
        BfpType::Int64 => PyBfpType::Int64,
        BfpType::Int128 => PyBfpType::Int128,
        BfpType::Float32 => PyBfpType::Float32,
        BfpType::Float64 => PyBfpType::Float64,
        BfpType::Bool8 => PyBfpType::Bool8,
        BfpType::Bool16 => PyBfpType::Bool16,
        BfpType::Bool32 => PyBfpType::Bool32,
        BfpType::Bool64 => PyBfpType::Bool64,
        BfpType::Bool128 => PyBfpType::Bool128,
        BfpType::Struct(_) => PyBfpType::Struct,
    }
}

impl BfpType {
    /// The host-facing tag of this wire type.
    pub fn to_py_bfp_type(&self) -> (r: PyBfpType)
        ensures
            r == spec_py_bfp_type(*self),
    {
        match self {
            BfpType::UInt8 => PyBfpType::UInt8,
            BfpType::UInt16 => PyBfpType::UInt16,
            BfpType::UInt32 => PyBfpType::UInt32,
            BfpType::UInt64 => PyBfpType::UInt64,
            BfpType::UInt128 => PyBfpType::UInt128,
            BfpType::Int8 => PyBfpType::Int8,
            BfpType::Int16 => PyBfpType::Int16,
            BfpType::Int32 => PyBfpType::Int32,
            BfpType::Int64 => PyBfpType::Int64,
            BfpType::Int128 => PyBfpType::Int128,
            BfpType::Float32 => PyBfpType::Float32,
            BfpType::Float64 => PyBfpType::Float64,
            BfpType::Bool8 => PyBfpType::Bool8,
            BfpType::Bool16 => PyBfpType::Bool16,
            BfpType::Bool32 => PyBfpType::Bool32,
            BfpType::Bool64 => PyBfpType::Bool64,
            BfpType::Bool128 => PyBfpType::Bool128,
            BfpType::Struct(_) => PyBfpType::Struct,
        }
    }
}

} // verus!
