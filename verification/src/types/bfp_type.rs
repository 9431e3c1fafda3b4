use std::sync::Arc;

use vstd::prelude::*;

use crate::errors::BfpError;
use crate::types::byte_stream::StreamView;
use crate::types::byte_stream::ByteStream;
use crate::types::le::{
    lemma_le_round_trip, lemma_le_value_bound, lemma_pow256_values, le_to_u128, pow256,
    spec_le_bytes, spec_le_value, spec_to_signed, u128_to_le,
};
use crate::types::structure::{spec_decode_value, spec_type_wf};
use crate::types::version::Version;
use crate::types::parseable_type::{ParseableType, SpecValue};
use crate::types::structure::Struct;

verus! {

/// Relies on Arc::clone: the returned handle points to the same shared
/// type descriptor, so as a value it equals the original. Schemas are
/// built once and shared by reference counting, never duplicated.
#[verifier::external_body]
pub(crate) fn share_type(t: &Arc<BfpType>) -> (r: Arc<BfpType>)
    ensures
        r == *t,
{
    t.clone()
}

/// A stateless descriptor of one wire encoding: a fixed-width little-endian
/// integer (signed or unsigned), a float carried as raw bits, a boolean
/// encoded as a zero/non-zero integer of the given width, or a nested
/// record schema. Every variant except `Struct` has a fixed byte width.
#[derive(Debug)]
pub enum BfpType {
    UInt8,
    UInt16,
    UInt32,
    UInt64,
    UInt128,
    Int8,
    Int16,
    Int32,
    Int64,
    Int128,
    Float32,
    Float64,
    Bool8,
    Bool16,
    Bool32,
    Bool64,
    Bool128,
    Struct(Struct),
}

impl BfpType {
    /// Whether values of this type have a total order. Everything but a
    /// nested record does.
    pub open spec fn spec_is_ord(&self) -> bool {
        !(self matches BfpType::Struct(_))
    }

    /// Whether values of this type have a total order.
    pub fn is_ord(&self) -> (r: bool)
        ensures
            r == self.spec_is_ord(),
    {
        match self {
            BfpType::Struct(_) => false,
            _ => true,
        }
    }

    /// Whether this type decodes to a boolean.
    pub open spec fn spec_is_bool(&self) -> bool {
        ||| self matches BfpType::Bool8
        ||| self matches BfpType::Bool16
        ||| self matches BfpType::Bool32
        ||| self matches BfpType::Bool64
        ||| self matches BfpType::Bool128
    }

    /// Whether this type decodes to a boolean.
    pub fn is_bool(&self) -> (r: bool)
        ensures
            r == self.spec_is_bool(),
    {
        match self {
            BfpType::Bool8 => true,
            BfpType::Bool16 => true,
            BfpType::Bool32 => true,
            BfpType::Bool64 => true,
            BfpType::Bool128 => true,
            _ => false,
        }
    }

    /// The host-language name of the values this type decodes to.
    pub fn py_name(&self) -> (r: &'static str)
        ensures
            self.spec_is_bool() ==> r@ == "bool"@,
            self.spec_is_float() ==> r@ == "float"@,
            (self matches BfpType::Struct(_)) ==> r@ == "BaseStruct"@,
            self.spec_is_int() ==> r@ == "int"@,
    {
        match self {
            BfpType::Float32 => "float",
            BfpType::Float64 => "float",
            BfpType::Bool8 => "bool",
            BfpType::Bool16 => "bool",
            BfpType::Bool32 => "bool",
            BfpType::Bool64 => "bool",
            BfpType::Bool128 => "bool",
            BfpType::Struct(_) => "BaseStruct",
            _ => "int",
        }
    }

    /// Whether this type decodes to a float.
    pub open spec fn spec_is_float(&self) -> bool {
        self matches BfpType::Float32 || self matches BfpType::Float64
    }

    /// Whether this type decodes to an integer.
    pub open spec fn spec_is_int(&self) -> bool {
        !(self.spec_is_bool() || self.spec_is_float() || self matches BfpType::Struct(_))
    }

    /// An integer count narrowed to this type's width, as a runtime value;
    /// `None` for the non-integer types. Mirrors two's-complement
    /// truncation, the usual "narrowed to the declared width" rule.
    pub open spec fn spec_to_parseable_from_usize(&self, value: usize) -> Option<ParseableType> {
        match self {
            BfpType::UInt8 => Option::Some(ParseableType::UInt8(value as u8)),
            BfpType::UInt16 => Option::Some(ParseableType::UInt16(value as u16)),
            BfpType::UInt32 => Option::Some(ParseableType::UInt32(value as u32)),
            BfpType::UInt64 => Option::Some(ParseableType::UInt64(value as u64)),
            BfpType::UInt128 => Option::Some(ParseableType::UInt128(value as u128)),
            BfpType::Int8 => Option::Some(ParseableType::Int8(value as i8)),
            BfpType::Int16 => Option::Some(ParseableType::Int16(value as i16)),
            BfpType::Int32 => Option::Some(ParseableType::Int32(value as i32)),
            BfpType::Int64 => Option::Some(ParseableType::Int64(value as i64)),
            BfpType::Int128 => Option::Some(ParseableType::Int128(value as i128)),
            _ => Option::None,
        }
    }

    /// Whether two type descriptors describe the same kind of wire value.
    /// Two nested-record types agree as kinds whatever their schemas.
    pub open spec fn spec_same_kind(&self, other: &BfpType) -> bool {
        match (self, other) {
            (BfpType::UInt8, BfpType::UInt8) => true,
            (BfpType::UInt16, BfpType::UInt16) => true,
            (BfpType::UInt32, BfpType::UInt32) => true,
            (BfpType::UInt64, BfpType::UInt64) => true,
            (BfpType::UInt128, BfpType::UInt128) => true,
            (BfpType::Int8, BfpType::Int8) => true,
            (BfpType::Int16, BfpType::Int16) => true,
            (BfpType::Int32, BfpType::Int32) => true,
            (BfpType::Int64, BfpType::Int64) => true,
            (BfpType::Int128, BfpType::Int128) => true,
            (BfpType::Float32, BfpType::Float32) => true,
            (BfpType::Float64, BfpType::Float64) => true,
            (BfpType::Bool8, BfpType::Bool8) => true,
            (BfpType::Bool16, BfpType::Bool16) => true,
            (BfpType::Bool32, BfpType::Bool32) => true,
            (BfpType::Bool64, BfpType::Bool64) => true,
            (BfpType::Bool128, BfpType::Bool128) => true,
            (BfpType::Struct(_), BfpType::Struct(_)) => true,
            _ => false,
        }
    }

    /// Whether two type descriptors describe the same kind of wire value.
    pub fn same_kind(&self, other: &BfpType) -> (r: bool)
        ensures
            r == self.spec_same_kind(other),
    {
        match (self, other) {
            (BfpType::UInt8, BfpType::UInt8) => true,
            (BfpType::UInt16, BfpType::UInt16) => true,
            (BfpType::UInt32, BfpType::UInt32) => true,
            (BfpType::UInt64, BfpType::UInt64) => true,
            (BfpType::UInt128, BfpType::UInt128) => true,
            (BfpType::Int8, BfpType::Int8) => true,
            (BfpType::Int16, BfpType::Int16) => true,
            (BfpType::Int32, BfpType::Int32) => true,
            (BfpType::Int64, BfpType::Int64) => true,
            (BfpType::Int128, BfpType::Int128) => true,
            (BfpType::Float32, BfpType::Float32) => true,
            (BfpType::Float64, BfpType::Float64) => true,
            (BfpType::Bool8, BfpType::Bool8) => true,
            (BfpType::Bool16, BfpType::Bool16) => true,
            (BfpType::Bool32, BfpType::Bool32) => true,
            (BfpType::Bool64, BfpType::Bool64) => true,
            (BfpType::Bool128, BfpType::Bool128) => true,
            (BfpType::Struct(_), BfpType::Struct(_)) => true,
            _ => false,
        }
    }

    /// Whether a runtime value is of the kind this type decodes to: the
    /// scalar check applied to constants at schema-definition time.
    pub open spec fn spec_accepts(&self, v: SpecValue) -> bool {
        match (self, v) {
            (BfpType::UInt8, SpecValue::UInt8(_)) => true,
            (BfpType::UInt16, SpecValue::UInt16(_)) => true,
            (BfpType::UInt32, SpecValue::UInt32(_)) => true,
            (BfpType::UInt64, SpecValue::UInt64(_)) => true,
            (BfpType::UInt128, SpecValue::UInt128(_)) => true,
            (BfpType::Int8, SpecValue::Int8(_)) => true,
            (BfpType::Int16, SpecValue::Int16(_)) => true,
            (BfpType::Int32, SpecValue::Int32(_)) => true,
            (BfpType::Int64, SpecValue::Int64(_)) => true,
            (BfpType::Int128, SpecValue::Int128(_)) => true,
            (BfpType::Float32, SpecValue::Float32(_)) => true,
            (BfpType::Float64, SpecValue::Float64(_)) => true,
            (BfpType::Bool8, SpecValue::Bool(_)) => true,
            (BfpType::Bool16, SpecValue::Bool(_)) => true,
            (BfpType::Bool32, SpecValue::Bool(_)) => true,
            (BfpType::Bool64, SpecValue::Bool(_)) => true,
            (BfpType::Bool128, SpecValue::Bool(_)) => true,
            (BfpType::Struct(_), SpecValue::Struct(_)) => true,
            _ => false,
        }
    }

    /// Whether a runtime value is of the kind this type decodes to.
    pub fn accepts(&self, v: &ParseableType) -> (r: bool)
        ensures
            r == self.spec_accepts(v@),
    {
        match (self, v) {
            (BfpType::UInt8, ParseableType::UInt8(_)) => true,
            (BfpType::UInt16, ParseableType::UInt16(_)) => true,
            (BfpType::UInt32, ParseableType::UInt32(_)) => true,
            (BfpType::UInt64, ParseableType::UInt64(_)) => true,
            (BfpType::UInt128, ParseableType::UInt128(_)) => true,
            (BfpType::Int8, ParseableType::Int8(_)) => true,
            (BfpType::Int16, ParseableType::Int16(_)) => true,
            (BfpType::Int32, ParseableType::Int32(_)) => true,
            (BfpType::Int64, ParseableType::Int64(_)) => true,
            (BfpType::Int128, ParseableType::Int128(_)) => true,
            (BfpType::Float32, ParseableType::Float32(_)) => true,
            (BfpType::Float64, ParseableType::Float64(_)) => true,
            (BfpType::Bool8, ParseableType::Bool(_)) => true,
            (BfpType::Bool16, ParseableType::Bool(_)) => true,
            (BfpType::Bool32, ParseableType::Bool(_)) => true,
            (BfpType::Bool64, ParseableType::Bool(_)) => true,
            (BfpType::Bool128, ParseableType::Bool(_)) => true,
            (BfpType::Struct(_), ParseableType::Struct(_)) => true,
            _ => false,
        }
    }

    /// An integer count narrowed to this type's width, as a runtime value.
    pub fn to_parseable_from_usize(&self, value: usize) -> (r: Option<ParseableType>)
        ensures
            r == self.spec_to_parseable_from_usize(value),
    {
        match self {
            BfpType::UInt8 => Some(ParseableType::UInt8(#[verifier::truncate] (value as u8))),
            BfpType::UInt16 => Some(ParseableType::UInt16(#[verifier::truncate] (value as u16))),
            BfpType::UInt32 => Some(ParseableType::UInt32(#[verifier::truncate] (value as u32))),
            BfpType::UInt64 => Some(ParseableType::UInt64(#[verifier::truncate] (value as u64))),
            BfpType::UInt128 => Some(ParseableType::UInt128(value as u128)),
            BfpType::Int8 => Some(ParseableType::Int8(#[verifier::truncate] (value as i8))),
            BfpType::Int16 => Some(ParseableType::Int16(#[verifier::truncate] (value as i16))),
            BfpType::Int32 => Some(ParseableType::Int32(#[verifier::truncate] (value as i32))),
            BfpType::Int64 => Some(ParseableType::Int64(#[verifier::truncate] (value as i64))),
            BfpType::Int128 => Some(ParseableType::Int128(value as i128)),
            _ => None,
        }
    }
}

/// The wire width in bytes of each primitive type. A nested record has no
/// fixed width.
pub open spec fn spec_width(t: BfpType) -> nat {
    match t {
        BfpType::UInt8 => 1,
        BfpType::UInt16 => 2,
        BfpType::UInt32 => 4,
        BfpType::UInt64 => 8,
        BfpType::UInt128 => 16,
        BfpType::Int8 => 1,
        BfpType::Int16 => 2,
        BfpType::Int32 => 4,
        BfpType::Int64 => 8,
        BfpType::Int128 => 16,
        BfpType::Float32 => 4,
        BfpType::Float64 => 8,
        BfpType::Bool8 => 1,
        BfpType::Bool16 => 2,
        BfpType::Bool32 => 4,
        BfpType::Bool64 => 8,
        BfpType::Bool128 => 16,
        BfpType::Struct(_) => 0,
    }
}

/// The runtime value a primitive type decodes from its wire bytes:
/// unsigned types read the little-endian value, signed types reinterpret
/// it as two's complement, floats keep the raw bits, and booleans are true
/// exactly when the integer is non-zero.
pub open spec fn spec_value_of(t: BfpType, bytes: Seq<u8>) -> SpecValue {
    match t {
        BfpType::UInt8 => SpecValue::UInt8(spec_le_value(bytes) as u8),
        BfpType::UInt16 => SpecValue::UInt16(spec_le_value(bytes) as u16),
        BfpType::UInt32 => SpecValue::UInt32(spec_le_value(bytes) as u32),
        BfpType::UInt64 => SpecValue::UInt64(spec_le_value(bytes) as u64),
        BfpType::UInt128 => SpecValue::UInt128(spec_le_value(bytes) as u128),
        BfpType::Int8 => SpecValue::Int8(spec_to_signed(spec_le_value(bytes), 1) as i8),
        BfpType::Int16 => SpecValue::Int16(spec_to_signed(spec_le_value(bytes), 2) as i16),
        BfpType::Int32 => SpecValue::Int32(spec_to_signed(spec_le_value(bytes), 4) as i32),
        BfpType::Int64 => SpecValue::Int64(spec_to_signed(spec_le_value(bytes), 8) as i64),
        BfpType::Int128 => SpecValue::Int128(spec_to_signed(spec_le_value(bytes), 16) as i128),
        BfpType::Float32 => SpecValue::Float32(spec_le_value(bytes) as u32),
        BfpType::Float64 => SpecValue::Float64(spec_le_value(bytes) as u64),
        BfpType::Bool8 => SpecValue::Bool(spec_le_value(bytes) != 0),
        BfpType::Bool16 => SpecValue::Bool(spec_le_value(bytes) != 0),
        BfpType::Bool32 => SpecValue::Bool(spec_le_value(bytes) != 0),
        BfpType::Bool64 => SpecValue::Bool(spec_le_value(bytes) != 0),
        BfpType::Bool128 => SpecValue::Bool(spec_le_value(bytes) != 0),
        BfpType::Struct(_) => arbitrary(),
    }
}

/// What decoding one primitive value does to a stream: consumes the type's
/// width and yields the decoded value, or fails with a truncation error
/// when fewer bytes remain, leaving the stream as it was.
pub open spec fn spec_decode_prim(t: BfpType, s: StreamView) -> Result<
    (SpecValue, StreamView),
    BfpError,
> {
    let w = spec_width(t);
    if s.available() < w {
        Result::Err(BfpError::Truncation {
            requested: w as usize,
            available: s.available() as usize,
        })
    } else {
        Result::Ok(
            (
                spec_value_of(t, s.bytes.subrange(s.progress, s.progress + w)),
                StreamView { bytes: s.bytes, progress: s.progress + w },
            ),
        )
    }
}

/// The wire bytes of a primitive value of type `t`: the little-endian
/// encoding of the integer, of the two's complement of a negative signed
/// value, of the raw float bits, or of one and zero for the booleans.
pub open spec fn spec_encode(t: BfpType, v: SpecValue) -> Seq<u8> {
    match (t, v) {
        (BfpType::UInt8, SpecValue::UInt8(x)) => spec_le_bytes(x as int, 1),
        (BfpType::UInt16, SpecValue::UInt16(x)) => spec_le_bytes(x as int, 2),
        (BfpType::UInt32, SpecValue::UInt32(x)) => spec_le_bytes(x as int, 4),
        (BfpType::UInt64, SpecValue::UInt64(x)) => spec_le_bytes(x as int, 8),
        (BfpType::UInt128, SpecValue::UInt128(x)) => spec_le_bytes(x as int, 16),
        (BfpType::Int8, SpecValue::Int8(x)) => spec_le_bytes(
            if x >= 0 { x as int } else { x + pow256(1) },
            1,
        ),
        (BfpType::Int16, SpecValue::Int16(x)) => spec_le_bytes(
            if x >= 0 { x as int } else { x + pow256(2) },
            2,
        ),
        (BfpType::Int32, SpecValue::Int32(x)) => spec_le_bytes(
            if x >= 0 { x as int } else { x + pow256(4) },
            4,
        ),
        (BfpType::Int64, SpecValue::Int64(x)) => spec_le_bytes(
            if x >= 0 { x as int } else { x + pow256(8) },
            8,
        ),
        (BfpType::Int128, SpecValue::Int128(x)) => spec_le_bytes(
            if x >= 0 { x as int } else { x + pow256(16) },
            16,
        ),
        (BfpType::Float32, SpecValue::Float32(x)) => spec_le_bytes(x as int, 4),
        (BfpType::Float64, SpecValue::Float64(x)) => spec_le_bytes(x as int, 8),
        (BfpType::Bool8, SpecValue::Bool(b)) => spec_le_bytes(if b { 1 } else { 0 }, 1),
        (BfpType::Bool16, SpecValue::Bool(b)) => spec_le_bytes(if b { 1 } else { 0 }, 2),
        (BfpType::Bool32, SpecValue::Bool(b)) => spec_le_bytes(if b { 1 } else { 0 }, 4),
        (BfpType::Bool64, SpecValue::Bool(b)) => spec_le_bytes(if b { 1 } else { 0 }, 8),
        (BfpType::Bool128, SpecValue::Bool(b)) => spec_le_bytes(if b { 1 } else { 0 }, 16),
        _ => Seq::empty(),
    }
}

impl BfpType {
    /// The wire width in bytes of this primitive type.
    pub fn byte_width(&self) -> (w: usize)
        requires
            !(*self matches BfpType::Struct(_)),
        ensures
            w == spec_width(*self),
            1 <= w <= 16,
    {
        match self {
            BfpType::UInt8 => 1,
            BfpType::UInt16 => 2,
            BfpType::UInt32 => 4,
            BfpType::UInt64 => 8,
            BfpType::UInt128 => 16,
            BfpType::Int8 => 1,
            BfpType::Int16 => 2,
            BfpType::Int32 => 4,
            BfpType::Int64 => 8,
            BfpType::Int128 => 16,
            BfpType::Float32 => 4,
            BfpType::Float64 => 8,
            BfpType::Bool8 => 1,
            BfpType::Bool16 => 2,
            BfpType::Bool32 => 4,
            BfpType::Bool64 => 8,
            BfpType::Bool128 => 16,
            BfpType::Struct(_) => 1,
        }
    }

    /// Decodes one value of this type from the stream: a primitive reads
    /// its fixed width little-endian; a nested record schema parses its
    /// whole field list with the same resolved version.
    pub fn from_stream(&self, stream: &mut ByteStream, ver: &Version) -> (r: Result<
        ParseableType,
        BfpError,
    >)
        requires
            spec_type_wf(*self),
            old(stream)@.wf(),
        ensures
            final(stream)@.wf(),
            final(stream)@.bytes == old(stream)@.bytes,
            (match spec_decode_value(*self, ver@, old(stream)@) {
                Result::Ok((v, s2)) => r matches Ok(pv) && pv@ == v && final(stream)@ == s2,
                Result::Err(e) => r == Result::<ParseableType, BfpError>::Err(e),
            }),
        decreases *self, 1nat,
    {
        match self {
            BfpType::Struct(sch) => {
                let nested = match sch.parse(stream, ver) {
                    Ok(b) => b,
                    Err(e) => {
                        return Err(e);
                    },
                };
                Ok(ParseableType::Struct(nested))
            },
            _ => {
                let w = self.byte_width();
                let bytes = match stream.get(w) {
                    Ok(b) => b,
                    Err(e) => {
                        return Err(e);
                    },
                };
                let u = le_to_u128(&bytes, w);
                proof {
                    lemma_le_value_bound(bytes@);
                    lemma_pow256_values();
                }
                let val = match self {
                    BfpType::UInt8 => ParseableType::UInt8(u as u8),
                    BfpType::UInt16 => ParseableType::UInt16(u as u16),
                    BfpType::UInt32 => ParseableType::UInt32(u as u32),
                    BfpType::UInt64 => ParseableType::UInt64(u as u64),
                    BfpType::UInt128 => ParseableType::UInt128(u),
                    BfpType::Int8 => ParseableType::Int8(
                        if u < 0x80 {
                            u as i8
                        } else {
                            ((u as i16) - 0x100) as i8
                        },
                    ),
                    BfpType::Int16 => ParseableType::Int16(
                        if u < 0x8000 {
                            u as i16
                        } else {
                            ((u as i32) - 0x10000) as i16
                        },
                    ),
                    BfpType::Int32 => ParseableType::Int32(
                        if u < 0x80000000 {
                            u as i32
                        } else {
                            ((u as i64) - 0x100000000) as i32
                        },
                    ),
                    BfpType::Int64 => ParseableType::Int64(
                        if u < 0x8000000000000000 {
                            u as i64
                        } else {
                            ((u as i128) - 0x10000000000000000) as i64
                        },
                    ),
                    BfpType::Int128 => ParseableType::Int128(
                        if u < 0x80000000000000000000000000000000 {
                            u as i128
                        } else {
                            let d = (u - 0x80000000000000000000000000000000) as i128;
                            let q: i128 = 0x40000000000000000000000000000000;
                            (d - q) - q
                        },
                    ),
                    BfpType::Float32 => ParseableType::Float32(u as u32),
                    BfpType::Float64 => ParseableType::Float64(u as u64),
                    BfpType::Bool8 => ParseableType::Bool(u != 0),
                    BfpType::Bool16 => ParseableType::Bool(u != 0),
                    BfpType::Bool32 => ParseableType::Bool(u != 0),
                    BfpType::Bool64 => ParseableType::Bool(u != 0),
                    BfpType::Bool128 => ParseableType::Bool(u != 0),
                    BfpType::Struct(_) => ParseableType::Absent,
                };
                Ok(val)
            },
        }
    }

    /// Encodes one primitive value of this type to its wire bytes. The
    /// value must be of this type's kind, and a nested record has no
    /// encoder.
    pub fn to_bytes(&self, value: &ParseableType) -> (r: Vec<u8>)
        requires
            !(*self matches BfpType::Struct(_)),
            self.spec_accepts(value@),
        ensures
            r@ == spec_encode(*self, value@),
            r@.len() == spec_width(*self),
    {
        proof {
            lemma_pow256_values();
        }
        match (self, value) {
            (BfpType::UInt8, ParseableType::UInt8(x)) => u128_to_le(*x as u128, 1),
            (BfpType::UInt16, ParseableType::UInt16(x)) => u128_to_le(*x as u128, 2),
            (BfpType::UInt32, ParseableType::UInt32(x)) => u128_to_le(*x as u128, 4),
            (BfpType::UInt64, ParseableType::UInt64(x)) => u128_to_le(*x as u128, 8),
            (BfpType::UInt128, ParseableType::UInt128(x)) => u128_to_le(*x, 16),
            (BfpType::Int8, ParseableType::Int8(x)) => u128_to_le(
                if *x >= 0 {
                    *x as u128
                } else {
                    ((*x as i16) + 0x100) as u128
                },
                1,
            ),
            (BfpType::Int16, ParseableType::Int16(x)) => u128_to_le(
                if *x >= 0 {
                    *x as u128
                } else {
                    ((*x as i32) + 0x10000) as u128
                },
                2,
            ),
            (BfpType::Int32, ParseableType::Int32(x)) => u128_to_le(
                if *x >= 0 {
                    *x as u128
                } else {
                    ((*x as i64) + 0x100000000) as u128
                },
                4,
            ),
            (BfpType::Int64, ParseableType::Int64(x)) => u128_to_le(
                if *x >= 0 {
                    *x as u128
                } else {
                    ((*x as i128) + 0x10000000000000000) as u128
                },
                8,
            ),
            (BfpType::Int128, ParseableType::Int128(x)) => u128_to_le(
                if *x >= 0 {
                    *x as u128
                } else {
                    let q: i128 = 0x40000000000000000000000000000000;
                    let d = *x + q;
                    let d2 = d + q;
                    (d2 as u128) + 0x80000000000000000000000000000000
                },
                16,
            ),
            (BfpType::Float32, ParseableType::Float32(x)) => u128_to_le(*x as u128, 4),
            (BfpType::Float64, ParseableType::Float64(x)) => u128_to_le(*x as u128, 8),
            (BfpType::Bool8, ParseableType::Bool(b)) => u128_to_le(
                if *b { 1 } else { 0 },
                1,
            ),
            (BfpType::Bool16, ParseableType::Bool(b)) => u128_to_le(
                if *b { 1 } else { 0 },
                2,
            ),
            (BfpType::Bool32, ParseableType::Bool(b)) => u128_to_le(
                if *b { 1 } else { 0 },
                4,
            ),
            (BfpType::Bool64, ParseableType::Bool(b)) => u128_to_le(
                if *b { 1 } else { 0 },
                8,
            ),
            (BfpType::Bool128, ParseableType::Bool(b)) => u128_to_le(
                if *b { 1 } else { 0 },
                16,
            ),
            _ => Vec::new(),
        }
    }
}

/// Round-trip law of the primitive codecs: for every primitive wire type,
/// decoding the bytes its own encoder produced yields the value encoded,
/// and consumes exactly those bytes.
pub proof fn lemma_codec_round_trip(t: BfpType, v: SpecValue)
    requires
        !(t matches BfpType::Struct(_)),
        t.spec_accepts(v),
    ensures
        spec_encode(t, v).len() == spec_width(t),
        spec_decode_prim(t, StreamView { bytes: spec_encode(t, v), progress: 0 }) == Result::<
            (SpecValue, StreamView),
            BfpError,
        >::Ok((v, StreamView { bytes: spec_encode(t, v), progress: spec_width(t) as int })),
{
    lemma_pow256_values();
    let w = spec_width(t);
    let e: int = match (t, v) {
        (BfpType::UInt8, SpecValue::UInt8(x)) => x as int,
        (BfpType::UInt16, SpecValue::UInt16(x)) => x as int,
        (BfpType::UInt32, SpecValue::UInt32(x)) => x as int,
        (BfpType::UInt64, SpecValue::UInt64(x)) => x as int,
        (BfpType::UInt128, SpecValue::UInt128(x)) => x as int,
        (BfpType::Int8, SpecValue::Int8(x)) => if x >= 0 { x as int } else { x + pow256(1) },
        (BfpType::Int16, SpecValue::Int16(x)) => if x >= 0 { x as int } else { x + pow256(2) },
        (BfpType::Int32, SpecValue::Int32(x)) => if x >= 0 { x as int } else { x + pow256(4) },
        (BfpType::Int64, SpecValue::Int64(x)) => if x >= 0 { x as int } else { x + pow256(8) },
        (BfpType::Int128, SpecValue::Int128(x)) => if x >= 0 { x as int } else { x + pow256(16) },
        (BfpType::Float32, SpecValue::Float32(x)) => x as int,
        (BfpType::Float64, SpecValue::Float64(x)) => x as int,
        (BfpType::Bool8, SpecValue::Bool(b)) => if b { 1 } else { 0 },
        (BfpType::Bool16, SpecValue::Bool(b)) => if b { 1 } else { 0 },
        (BfpType::Bool32, SpecValue::Bool(b)) => if b { 1 } else { 0 },
        (BfpType::Bool64, SpecValue::Bool(b)) => if b { 1 } else { 0 },
        (BfpType::Bool128, SpecValue::Bool(b)) => if b { 1 } else { 0 },
        _ => 0,
    };
    assert(spec_encode(t, v) == spec_le_bytes(e, w));
    assert(0 <= e < pow256(w));
    lemma_le_round_trip(e, w);
    let bytes = spec_encode(t, v);
    let s = StreamView { bytes, progress: 0 };
    assert(s.available() == w);
    assert(bytes.subrange(0, w as int) =~= bytes);
    assert(spec_le_value(bytes) == e);
    assert(spec_value_of(t, bytes) == v);
}

} // verus!
