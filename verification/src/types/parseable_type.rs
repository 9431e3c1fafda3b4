use vstd::prelude::*;

use crate::ordering::Ordering;
use crate::types::base_struct::{view_record, BaseStruct, SpecRecord};
use crate::types::bfp_list::{view_list, BfpList, SpecList};
use crate::types::bfp_type::{share_type, BfpType};
use crate::types::version::Version;

verus! {

broadcast use
    vstd::seq::axiom_seq_index_decreases,
    vstd::std_specs::vec::axiom_vec_decreases_to_view,
    vstd::std_specs::vec::axiom_vec_index_decreases;

/// One decoded runtime value: the currency passed between all components.
/// The same primitive variants as `BfpType`, plus the absent marker, an
/// ordered homogeneous list, a byte blob and a nested record. Floats are
/// carried as their IEEE 754 bit patterns, so equality is structural and
/// ordering is computed from the bits.
#[derive(Debug)]
pub enum ParseableType {
    Absent,
    UInt8(u8),
    UInt16(u16),
    UInt32(u32),
    UInt64(u64),
    UInt128(u128),
    Int8(i8),
    Int16(i16),
    Int32(i32),
    Int64(i64),
    Int128(i128),
    Float32(u32),
    Float64(u64),
    Bool(bool),
    Array(BfpList),
    Bytes(Vec<u8>),
    Struct(BaseStruct),
}

/// Mathematical model of a runtime value.
pub enum SpecValue {
    Absent,
    UInt8(u8),
    UInt16(u16),
    UInt32(u32),
    UInt64(u64),
    UInt128(u128),
    Int8(i8),
    Int16(i16),
    Int32(i32),
    Int64(i64),
    Int128(i128),
    Float32(u32),
    Float64(u64),
    Bool(bool),
    Array(SpecList),
    Bytes(Seq<u8>),
    Struct(SpecRecord),
}

/// Model of one runtime value.
pub open spec fn view_value(v: ParseableType) -> SpecValue
    decreases v,
{
    match v {
        ParseableType::Absent => SpecValue::Absent,
        ParseableType::UInt8(x) => SpecValue::UInt8(x),
        ParseableType::UInt16(x) => SpecValue::UInt16(x),
        ParseableType::UInt32(x) => SpecValue::UInt32(x),
        ParseableType::UInt64(x) => SpecValue::UInt64(x),
        ParseableType::UInt128(x) => SpecValue::UInt128(x),
        ParseableType::Int8(x) => SpecValue::Int8(x),
        ParseableType::Int16(x) => SpecValue::Int16(x),
        ParseableType::Int32(x) => SpecValue::Int32(x),
        ParseableType::Int64(x) => SpecValue::Int64(x),
        ParseableType::Int128(x) => SpecValue::Int128(x),
        ParseableType::Float32(x) => SpecValue::Float32(x),
        ParseableType::Float64(x) => SpecValue::Float64(x),
        ParseableType::Bool(x) => SpecValue::Bool(x),
        ParseableType::Array(ls) => SpecValue::Array(view_list(ls)),
        ParseableType::Bytes(b) => SpecValue::Bytes(b@),
        ParseableType::Struct(r) => SpecValue::Struct(view_record(r)),
    }
}

/// Elementwise model of a sequence of runtime values.
pub open spec fn view_values(s: Seq<ParseableType>) -> Seq<SpecValue>
    decreases s,
{
    Seq::new(
        s.len(),
        |i: int|
            if 0 <= i < s.len() {
                view_value(s[i])
            } else {
                arbitrary()
            },
    )
}

/// Elementwise model of a value table: unpopulated slots stay `None`.
pub open spec fn view_table(s: Seq<Option<ParseableType>>) -> Seq<Option<SpecValue>>
    decreases s,
{
    Seq::new(
        s.len(),
        |i: int|
            if 0 <= i < s.len() {
                match s[i] {
                    Option::Some(v) => Option::Some(view_value(v)),
                    Option::None => Option::None,
                }
            } else {
                arbitrary()
            },
    )
}

impl View for ParseableType {
    type V = SpecValue;

    open spec fn view(&self) -> SpecValue {
        view_value(*self)
    }
}

/// Structural equality of two values: same variant, equal payload,
/// elementwise on lists, tablewise on records. A list's declared element
/// type and a record's version and repeat table do not take part, only the
/// decoded data does.
pub open spec fn spec_eq_value(a: SpecValue, b: SpecValue) -> bool
    decreases a,
{
    match (a, b) {
        (SpecValue::Absent, SpecValue::Absent) => true,
        (SpecValue::UInt8(x), SpecValue::UInt8(y)) => x == y,
        (SpecValue::UInt16(x), SpecValue::UInt16(y)) => x == y,
        (SpecValue::UInt32(x), SpecValue::UInt32(y)) => x == y,
        (SpecValue::UInt64(x), SpecValue::UInt64(y)) => x == y,
        (SpecValue::UInt128(x), SpecValue::UInt128(y)) => x == y,
        (SpecValue::Int8(x), SpecValue::Int8(y)) => x == y,
        (SpecValue::Int16(x), SpecValue::Int16(y)) => x == y,
        (SpecValue::Int32(x), SpecValue::Int32(y)) => x == y,
        (SpecValue::Int64(x), SpecValue::Int64(y)) => x == y,
        (SpecValue::Int128(x), SpecValue::Int128(y)) => x == y,
        (SpecValue::Float32(x), SpecValue::Float32(y)) => x == y,
        (SpecValue::Float64(x), SpecValue::Float64(y)) => x == y,
        (SpecValue::Bool(x), SpecValue::Bool(y)) => x == y,
        (SpecValue::Array(x), SpecValue::Array(y)) => spec_eq_values(x.elems, y.elems),
        (SpecValue::Bytes(x), SpecValue::Bytes(y)) => x == y,
        (SpecValue::Struct(x), SpecValue::Struct(y)) => spec_eq_tables(x.data, y.data),
        _ => false,
    }
}

/// Elementwise structural equality of two value sequences.
pub open spec fn spec_eq_values(a: Seq<SpecValue>, b: Seq<SpecValue>) -> bool
    decreases a,
{
    a.len() == b.len() && (forall|i: int|
        0 <= i < a.len() ==> spec_eq_value(#[trigger] a[i], b[i]))
}

/// Slotwise structural equality of two value tables.
pub open spec fn spec_eq_tables(a: Seq<Option<SpecValue>>, b: Seq<Option<SpecValue>>) -> bool
    decreases a,
{
    a.len() == b.len() && (forall|i: int|
        0 <= i < a.len() ==> spec_eq_entry(#[trigger] a[i], b[i]))
}

/// Structural equality of two value-table slots.
pub open spec fn spec_eq_entry(a: Option<SpecValue>, b: Option<SpecValue>) -> bool
    decreases a,
{
    match (a, b) {
        (Option::Some(x), Option::Some(y)) => spec_eq_value(x, y),
        (Option::None, Option::None) => true,
        _ => false,
    }
}

/// The boolean a value converts to, if it holds one.
pub open spec fn spec_as_bool(v: SpecValue) -> Option<bool> {
    match v {
        SpecValue::Bool(b) => Option::Some(b),
        _ => Option::None,
    }
}

/// The machine integer a value narrows to, if it holds an integer.
/// Narrowing truncates to the machine word, as the repeat-count override
/// does.
pub open spec fn spec_as_isize(v: SpecValue) -> Option<isize> {
    match v {
        SpecValue::UInt8(x) => Option::Some(x as isize),
        SpecValue::UInt16(x) => Option::Some(x as isize),
        SpecValue::UInt32(x) => Option::Some(x as isize),
        SpecValue::UInt64(x) => Option::Some(x as isize),
        SpecValue::UInt128(x) => Option::Some(x as isize),
        SpecValue::Int8(x) => Option::Some(x as isize),
        SpecValue::Int16(x) => Option::Some(x as isize),
        SpecValue::Int32(x) => Option::Some(x as isize),
        SpecValue::Int64(x) => Option::Some(x as isize),
        SpecValue::Int128(x) => Option::Some(x as isize),
        _ => Option::None,
    }
}

/// Lexicographic order on byte blobs.
pub open spec fn spec_cmp_bytes(a: Seq<u8>, b: Seq<u8>) -> Ordering
    decreases a.len() + b.len(),
{
    if a.len() == 0 && b.len() == 0 {
        Ordering::Equal
    } else if a.len() == 0 {
        Ordering::Less
    } else if b.len() == 0 {
        Ordering::Greater
    } else if a[0] < b[0] {
        Ordering::Less
    } else if a[0] > b[0] {
        Ordering::Greater
    } else {
        spec_cmp_bytes(a.skip(1), b.skip(1))
    }
}

/// The order of two integers.
pub open spec fn spec_cmp_int(a: int, b: int) -> Ordering {
    if a < b {
        Ordering::Less
    } else if a > b {
        Ordering::Greater
    } else {
        Ordering::Equal
    }
}

/// Whether a 32-bit float bit pattern encodes a NaN.
pub open spec fn spec_f32_is_nan(bits: u32) -> bool {
    (bits >> 23u32) & 0xff == 0xff && bits & 0x7fffff != 0
}

/// A 32-bit float bit pattern mapped to an integer that orders as IEEE 754
/// comparison does on the non-NaN floats: signed magnitude, so both zeros
/// map to zero.
pub open spec fn spec_f32_key(bits: u32) -> int {
    if bits >> 31u32 == 1 {
        -((bits & 0x7fffffff) as int)
    } else {
        (bits & 0x7fffffff) as int
    }
}

/// Whether a 64-bit float bit pattern encodes a NaN.
pub open spec fn spec_f64_is_nan(bits: u64) -> bool {
    (bits >> 52u64) & 0x7ff == 0x7ff && bits & 0xfffffffffffff != 0
}

/// A 64-bit float bit pattern mapped to an integer that orders as IEEE 754
/// comparison does on the non-NaN floats.
pub open spec fn spec_f64_key(bits: u64) -> int {
    if bits >> 63u64 == 1 {
        -((bits & 0x7fffffffffffffff) as int)
    } else {
        (bits & 0x7fffffffffffffff) as int
    }
}

/// Partial order on runtime values: defined between two integers of the
/// same width, two non-NaN floats of the same width, two booleans (false
/// before true) and two byte blobs; undefined everywhere else, in
/// particular on lists, records, the absent marker and across variants.
pub open spec fn spec_cmp_value(a: SpecValue, b: SpecValue) -> Option<Ordering> {
    match (a, b) {
        (SpecValue::UInt8(x), SpecValue::UInt8(y)) => Option::Some(spec_cmp_int(x as int, y as int)),
        (SpecValue::UInt16(x), SpecValue::UInt16(y)) => Option::Some(
            spec_cmp_int(x as int, y as int),
        ),
        (SpecValue::UInt32(x), SpecValue::UInt32(y)) => Option::Some(
            spec_cmp_int(x as int, y as int),
        ),
        (SpecValue::UInt64(x), SpecValue::UInt64(y)) => Option::Some(
            spec_cmp_int(x as int, y as int),
        ),
        (SpecValue::UInt128(x), SpecValue::UInt128(y)) => Option::Some(
            spec_cmp_int(x as int, y as int),
        ),
        (SpecValue::Int8(x), SpecValue::Int8(y)) => Option::Some(spec_cmp_int(x as int, y as int)),
        (SpecValue::Int16(x), SpecValue::Int16(y)) => Option::Some(spec_cmp_int(x as int, y as int)),
        (SpecValue::Int32(x), SpecValue::Int32(y)) => Option::Some(spec_cmp_int(x as int, y as int)),
        (SpecValue::Int64(x), SpecValue::Int64(y)) => Option::Some(spec_cmp_int(x as int, y as int)),
        (SpecValue::Int128(x), SpecValue::Int128(y)) => Option::Some(
            spec_cmp_int(x as int, y as int),
        ),
        (SpecValue::Float32(x), SpecValue::Float32(y)) => if spec_f32_is_nan(x) || spec_f32_is_nan(
            y,
        ) {
            Option::None
        } else {
            Option::Some(spec_cmp_int(spec_f32_key(x), spec_f32_key(y)))
        },
        (SpecValue::Float64(x), SpecValue::Float64(y)) => if spec_f64_is_nan(x) || spec_f64_is_nan(
            y,
        ) {
            Option::None
        } else {
            Option::Some(spec_cmp_int(spec_f64_key(x), spec_f64_key(y)))
        },
        (SpecValue::Bool(x), SpecValue::Bool(y)) => Option::Some(
            spec_cmp_int(
                if x {
                    1int
                } else {
                    0int
                },
                if y {
                    1int
                } else {
                    0int
                },
            ),
        ),
        (SpecValue::Bytes(x), SpecValue::Bytes(y)) => Option::Some(spec_cmp_bytes(x, y)),
        _ => Option::None,
    }
}

/// The opposite comparison outcome.
pub open spec fn spec_flip_ord(o: Ordering) -> Ordering {
    match o {
        Ordering::Less => Ordering::Greater,
        Ordering::Equal => Ordering::Equal,
        Ordering::Greater => Ordering::Less,
    }
}

/// Lexicographic byte order is antisymmetric: swapping the operands flips
/// the outcome.
pub proof fn lemma_cmp_bytes_antisym(a: Seq<u8>, b: Seq<u8>)
    ensures
        spec_cmp_bytes(b, a) == spec_flip_ord(spec_cmp_bytes(a, b)),
    decreases a.len() + b.len(),
{
    if a.len() > 0 && b.len() > 0 && a[0] == b[0] {
        lemma_cmp_bytes_antisym(a.skip(1), b.skip(1));
    }
}

/// The value order is antisymmetric: where two values compare at all,
/// swapping them flips the outcome.
pub proof fn lemma_cmp_value_antisym(a: SpecValue, b: SpecValue)
    ensures
        spec_cmp_value(a, b) matches Some(o) ==> spec_cmp_value(b, a) == Some(spec_flip_ord(o)),
{
    match (a, b) {
        (SpecValue::Bytes(x), SpecValue::Bytes(y)) => {
            lemma_cmp_bytes_antisym(x, y);
        },
        _ => {},
    }
}

/// Whether a value is a list whose declared element type is of the same
/// kind as the given type: the check applied before a list field's slot is
/// overwritten.
pub open spec fn spec_is_ls_of(v: SpecValue, data_type: BfpType) -> bool {
    match v {
        SpecValue::Array(ls) => (*ls.data_type).spec_same_kind(&data_type),
        _ => false,
    }
}

/// The order of two unsigned machine integers as an `Ordering` value.
pub(crate) fn cmp_u128(a: u128, b: u128) -> (r: Ordering)
    ensures
        r == spec_cmp_int(a as int, b as int),
{
    if a < b {
        Ordering::Less
    } else if a > b {
        Ordering::Greater
    } else {
        Ordering::Equal
    }
}

/// The order of two signed machine integers as an `Ordering` value.
pub(crate) fn cmp_i128(a: i128, b: i128) -> (r: Ordering)
    ensures
        r == spec_cmp_int(a as int, b as int),
{
    if a < b {
        Ordering::Less
    } else if a > b {
        Ordering::Greater
    } else {
        Ordering::Equal
    }
}

impl ParseableType {
    /// The boolean this value converts to, if it holds one.
    pub fn to_bool(&self) -> (r: Option<bool>)
        ensures
            r == spec_as_bool(self@),
    {
        match self {
            ParseableType::Bool(b) => Some(*b),
            _ => None,
        }
    }

    /// The machine integer this value narrows to, if it holds an integer.
    pub fn to_isize(&self) -> (r: Option<isize>)
        ensures
            r == spec_as_isize(self@),
    {
        match self {
            ParseableType::UInt8(x) => Some(*x as isize),
            ParseableType::UInt16(x) => Some(*x as isize),
            ParseableType::UInt32(x) => Some(*x as isize),
            ParseableType::UInt64(x) => Some(#[verifier::truncate] (*x as isize)),
            ParseableType::UInt128(x) => Some(#[verifier::truncate] (*x as isize)),
            ParseableType::Int8(x) => Some(*x as isize),
            ParseableType::Int16(x) => Some(*x as isize),
            ParseableType::Int32(x) => Some(*x as isize),
            ParseableType::Int64(x) => Some(*x as isize),
            ParseableType::Int128(x) => Some(#[verifier::truncate] (*x as isize)),
            _ => None,
        }
    }

    /// Compares this value against another, where their variants have a
    /// defined order.
    #[verifier::loop_isolation(false)]
    pub fn cmp_value(&self, other: &ParseableType) -> (r: Option<Ordering>)
        ensures
            r == spec_cmp_value(self@, other@),
    {
        match (self, other) {
            (ParseableType::UInt8(x), ParseableType::UInt8(y)) => Some(cmp_u128(*x as u128, *y as u128)),
            (ParseableType::UInt16(x), ParseableType::UInt16(y)) => Some(cmp_u128(*x as u128, *y as u128)),
            (ParseableType::UInt32(x), ParseableType::UInt32(y)) => Some(cmp_u128(*x as u128, *y as u128)),
            (ParseableType::UInt64(x), ParseableType::UInt64(y)) => Some(cmp_u128(*x as u128, *y as u128)),
            (ParseableType::UInt128(x), ParseableType::UInt128(y)) => Some(cmp_u128(*x, *y)),
            (ParseableType::Int8(x), ParseableType::Int8(y)) => Some(cmp_i128(*x as i128, *y as i128)),
            (ParseableType::Int16(x), ParseableType::Int16(y)) => Some(cmp_i128(*x as i128, *y as i128)),
            (ParseableType::Int32(x), ParseableType::Int32(y)) => Some(cmp_i128(*x as i128, *y as i128)),
            (ParseableType::Int64(x), ParseableType::Int64(y)) => Some(cmp_i128(*x as i128, *y as i128)),
            (ParseableType::Int128(x), ParseableType::Int128(y)) => Some(cmp_i128(*x, *y)),
            (ParseableType::Float32(x), ParseableType::Float32(y)) => {
                if ((*x >> 23u32) & 0xff == 0xff && *x & 0x7fffff != 0) || ((*y >> 23u32) & 0xff
                    == 0xff && *y & 0x7fffff != 0) {
                    None
                } else {
                    let kx: i64 = if *x >> 31u32 == 1 {
                        -((*x & 0x7fffffff) as i64)
                    } else {
                        (*x & 0x7fffffff) as i64
                    };
                    let ky: i64 = if *y >> 31u32 == 1 {
                        -((*y & 0x7fffffff) as i64)
                    } else {
                        (*y & 0x7fffffff) as i64
                    };
                    Some(cmp_i128(kx as i128, ky as i128))
                }
            },
            (ParseableType::Float64(x), ParseableType::Float64(y)) => {
                if ((*x >> 52u64) & 0x7ff == 0x7ff && *x & 0xfffffffffffff != 0) || ((*y >> 52u64)
                    & 0x7ff == 0x7ff && *y & 0xfffffffffffff != 0) {
                    None
                } else {
                    let kx: i128 = if *x >> 63u64 == 1 {
                        -((*x & 0x7fffffffffffffff) as i128)
                    } else {
                        (*x & 0x7fffffffffffffff) as i128
                    };
                    let ky: i128 = if *y >> 63u64 == 1 {
                        -((*y & 0x7fffffffffffffff) as i128)
                    } else {
                        (*y & 0x7fffffffffffffff) as i128
                    };
                    Some(cmp_i128(kx, ky))
                }
            },
            (ParseableType::Bool(x), ParseableType::Bool(y)) => {
                let vx: u128 = if *x {
                    1
                } else {
                    0
                };
                let vy: u128 = if *y {
                    1
                } else {
                    0
                };
                Some(cmp_u128(vx, vy))
            },
            (ParseableType::Bytes(x), ParseableType::Bytes(y)) => {
                proof {
                    assert(x@.skip(0) =~= x@);
                    assert(y@.skip(0) =~= y@);
                }
                let mut i: usize = 0;
                loop
                    invariant
                        0 <= i <= x@.len(),
                        0 <= i <= y@.len(),
                        spec_cmp_bytes(x@, y@) == spec_cmp_bytes(
                            x@.skip(i as int),
                            y@.skip(i as int),
                        ),
                    decreases x@.len() - i,
                {
                    if i >= x.len() && i >= y.len() {
                        return Some(Ordering::Equal);
                    }
                    if i >= x.len() {
                        return Some(Ordering::Less);
                    }
                    if i >= y.len() {
                        return Some(Ordering::Greater);
                    }
                    if x[i] < y[i] {
                        return Some(Ordering::Less);
                    }
                    if x[i] > y[i] {
                        return Some(Ordering::Greater);
                    }
                    proof {
                        assert(x@.skip(i as int)[0] == x@[i as int]);
                        assert(y@.skip(i as int)[0] == y@[i as int]);
                        assert(x@.skip(i as int).skip(1) =~= x@.skip(i + 1));
                        assert(y@.skip(i as int).skip(1) =~= y@.skip(i + 1));
                    }
                    i = i + 1;
                }
            },
            _ => None,
        }
    }

    /// Whether this value is a list whose declared element type is of the
    /// same kind as the given type.
    pub fn is_ls_of(&self, data_type: &BfpType) -> (r: bool)
        ensures
            r == spec_is_ls_of(self@, *data_type),
    {
        match self {
            ParseableType::Array(ls) => ls.data_type.same_kind(data_type),
            _ => false,
        }
    }

    /// A value equal to this one, element by element. Shares the schema
    /// descriptors the value refers to; copies everything else.
    #[verifier::loop_isolation(false)]
    pub fn duplicate(&self) -> (r: ParseableType)
        ensures
            r@ == self@,
        decreases *self,
    {
        match self {
            ParseableType::Absent => ParseableType::Absent,
            ParseableType::UInt8(x) => ParseableType::UInt8(*x),
            ParseableType::UInt16(x) => ParseableType::UInt16(*x),
            ParseableType::UInt32(x) => ParseableType::UInt32(*x),
            ParseableType::UInt64(x) => ParseableType::UInt64(*x),
            ParseableType::UInt128(x) => ParseableType::UInt128(*x),
            ParseableType::Int8(x) => ParseableType::Int8(*x),
            ParseableType::Int16(x) => ParseableType::Int16(*x),
            ParseableType::Int32(x) => ParseableType::Int32(*x),
            ParseableType::Int64(x) => ParseableType::Int64(*x),
            ParseableType::Int128(x) => ParseableType::Int128(*x),
            ParseableType::Float32(x) => ParseableType::Float32(*x),
            ParseableType::Float64(x) => ParseableType::Float64(*x),
            ParseableType::Bool(x) => ParseableType::Bool(*x),
            ParseableType::Array(x) => {
                let n = x.ls.len();
                let mut out: Vec<ParseableType> = Vec::new();
                let mut i: usize = 0;
                while i < n
                    invariant
                        0 <= i <= n,
                        n == x.ls@.len(),
                        out@.len() == i,
                        forall|j: int| 0 <= j < i ==> out@[j]@ == view_values(x.ls@)[j],
                    decreases n - i,
                {
                    out.push(x.ls[i].duplicate());
                    i = i + 1;
                }
                proof {
                    assert(view_values(out@) =~= view_values(x.ls@));
                }
                ParseableType::Array(
                    BfpList { ls: out, data_type: share_type(&x.data_type) },
                )
            },
            ParseableType::Bytes(x) => {
                let n = x.len();
                let mut out: Vec<u8> = Vec::new();
                let mut i: usize = 0;
                while i < n
                    invariant
                        0 <= i <= n,
                        n == x@.len(),
                        out@ == x@.subrange(0, i as int),
                    decreases n - i,
                {
                    out.push(x[i]);
                    proof {
                        assert(out@ =~= x@.subrange(0, i + 1));
                    }
                    i = i + 1;
                }
                proof {
                    assert(out@ =~= x@);
                }
                ParseableType::Bytes(out)
            },
            ParseableType::Struct(x) => {
                let n = x.data.len();
                let mut data: Vec<Option<ParseableType>> = Vec::new();
                let mut i: usize = 0;
                while i < n
                    invariant
                        0 <= i <= n,
                        n == x.data@.len(),
                        data@.len() == i,
                        forall|j: int|
                            0 <= j < i ==> view_table(data@)[j] == view_table(x.data@)[j],
                    decreases n - i,
                {
                    let entry = match &x.data[i] {
                        Some(v) => Some(v.duplicate()),
                        None => None,
                    };
                    let ghost pre = data@;
                    data.push(entry);
                    proof {
                        assert forall|j: int| 0 <= j < i + 1 implies view_table(data@)[j]
                            == view_table(x.data@)[j] by {
                            if j < i as int {
                                assert(data@[j] == pre[j]);
                                assert(view_table(pre)[j] == view_table(x.data@)[j]);
                            } else {
                                assert(data@[j] == entry);
                            }
                        }
                    }
                    i = i + 1;
                }
                let m = x.repeats.len();
                let mut repeats: Vec<Option<isize>> = Vec::new();
                let mut i: usize = 0;
                while i < m
                    invariant
                        0 <= i <= m,
                        m == x.repeats@.len(),
                        repeats@ == x.repeats@.subrange(0, i as int),
                    decreases m - i,
                {
                    repeats.push(x.repeats[i]);
                    proof {
                        assert(repeats@ =~= x.repeats@.subrange(0, i + 1));
                    }
                    i = i + 1;
                }
                proof {
                    assert(view_table(data@) =~= view_table(x.data@));
                    assert(repeats@ =~= x.repeats@);
                }
                ParseableType::Struct(BaseStruct { ver: x.ver.clone(), data, repeats })
            },
        }
    }

    /// Structural equality against another value.
    #[verifier::loop_isolation(false)]
    pub fn equals(&self, other: &ParseableType) -> (r: bool)
        ensures
            r == spec_eq_value(self@, other@),
        decreases *self,
    {
        match (self, other) {
            (ParseableType::Absent, ParseableType::Absent) => true,
            (ParseableType::UInt8(x), ParseableType::UInt8(y)) => x == y,
            (ParseableType::UInt16(x), ParseableType::UInt16(y)) => x == y,
            (ParseableType::UInt32(x), ParseableType::UInt32(y)) => x == y,
            (ParseableType::UInt64(x), ParseableType::UInt64(y)) => x == y,
            (ParseableType::UInt128(x), ParseableType::UInt128(y)) => x == y,
            (ParseableType::Int8(x), ParseableType::Int8(y)) => x == y,
            (ParseableType::Int16(x), ParseableType::Int16(y)) => x == y,
            (ParseableType::Int32(x), ParseableType::Int32(y)) => x == y,
            (ParseableType::Int64(x), ParseableType::Int64(y)) => x == y,
            (ParseableType::Int128(x), ParseableType::Int128(y)) => x == y,
            (ParseableType::Float32(x), ParseableType::Float32(y)) => x == y,
            (ParseableType::Float64(x), ParseableType::Float64(y)) => x == y,
            (ParseableType::Bool(x), ParseableType::Bool(y)) => x == y,
            (ParseableType::Array(x), ParseableType::Array(y)) => {
                if x.ls.len() != y.ls.len() {
                    return false;
                }
                let n = x.ls.len();
                let mut i: usize = 0;
                while i < n
                    invariant
                        0 <= i <= n,
                        n == x.ls@.len() == y.ls@.len(),
                        forall|j: int|
                            0 <= j < i ==> spec_eq_value(
                                view_values(x.ls@)[j],
                                view_values(y.ls@)[j],
                            ),
                    decreases n - i,
                {
                    if !x.ls[i].equals(&y.ls[i]) {
                        proof {
                            assert(view_values(x.ls@)[i as int] == view_value(x.ls@[i as int]));
                            assert(!spec_eq_value(
                                view_values(x.ls@)[i as int],
                                view_values(y.ls@)[i as int],
                            ));
                        }
                        return false;
                    }
                    i = i + 1;
                }
                true
            },
            (ParseableType::Bytes(x), ParseableType::Bytes(y)) => {
                if x.len() != y.len() {
                    return false;
                }
                let n = x.len();
                let mut i: usize = 0;
                while i < n
                    invariant
                        0 <= i <= n,
                        n == x@.len() == y@.len(),
                        forall|j: int| 0 <= j < i ==> x@[j] == y@[j],
                    decreases n - i,
                {
                    if x[i] != y[i] {
                        return false;
                    }
                    i = i + 1;
                }
                proof {
                    assert(x@ =~= y@);
                }
                true
            },
            (ParseableType::Struct(x), ParseableType::Struct(y)) => {
                if x.data.len() != y.data.len() {
                    return false;
                }
                let n = x.data.len();
                let mut i: usize = 0;
                while i < n
                    invariant
                        0 <= i <= n,
                        n == x.data@.len() == y.data@.len(),
                        forall|j: int|
                            0 <= j < i ==> spec_eq_entry(
                                #[trigger] view_table(x.data@)[j],
                                view_table(y.data@)[j],
                            ),
                    decreases n - i,
                {
                    let same = match (&x.data[i], &y.data[i]) {
                        (Some(a), Some(b)) => a.equals(b),
                        (None, None) => true,
                        _ => false,
                    };
                    if !same {
                        proof {
                            assert(!spec_eq_entry(
                                view_table(x.data@)[i as int],
                                view_table(y.data@)[i as int],
                            ));
                        }
                        return false;
                    }
                    i = i + 1;
                }
                true
            },
            _ => false,
        }
    }
}

} // verus!
