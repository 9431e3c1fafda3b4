use vstd::prelude::*;

use crate::errors::BfpError;
use crate::types::parseable_type::{view_table, view_value, ParseableType, SpecValue};

verus! {

/// Whether reading slot `idx` is allowed: the slot exists and has been
/// populated. Reading an unpopulated slot is a schema-authoring bug.
pub open spec fn spec_check_initialized(idx: usize, data: Seq<Option<SpecValue>>) -> Result<
    (),
    BfpError,
> {
    if idx < data.len() && data[idx as int] is Some {
        Result::Ok(())
    } else {
        Result::Err(BfpError::UninitializedField { field: idx })
    }
}

/// What a combinator sees when it reads slot `idx` of a populated table:
/// the value, unless the slot holds the absent marker because the resolved
/// version excludes the field.
pub open spec fn spec_get(idx: usize, data: Seq<Option<SpecValue>>) -> Result<
    SpecValue,
    BfpError,
> {
    if data[idx as int] == Option::Some(SpecValue::Absent) {
        Result::Err(BfpError::VersionUnsupported { field: idx })
    } else {
        Result::Ok(data[idx as int]->Some_0)
    }
}

/// Asserts that slot `idx` exists and has been populated.
pub fn check_initialized(idx: usize, data: &Vec<Option<ParseableType>>) -> (r: Result<
    (),
    BfpError,
>)
    ensures
        r == spec_check_initialized(idx, view_table(data@)),
{
    if idx < data.len() && data[idx].is_some() {
        Ok(())
    } else {
        Err(BfpError::UninitializedField { field: idx })
    }
}

/// Reads the value in slot `idx`, failing with a version error on the
/// absent marker.
pub fn get<'a>(idx: usize, data: &'a Vec<Option<ParseableType>>) -> (r: Result<
    &'a ParseableType,
    BfpError,
>)
    requires
        spec_check_initialized(idx, view_table(data@)) is Ok,
    ensures
        match r {
            Result::Ok(v) => spec_get(idx, view_table(data@)) == Result::<
                SpecValue,
                BfpError,
            >::Ok(view_value(*v)),
            Result::Err(e) => spec_get(idx, view_table(data@)) == Result::<
                SpecValue,
                BfpError,
            >::Err(e),
        },
{
    match &data[idx] {
        Some(v) => {
            match v {
                ParseableType::Absent => Err(BfpError::VersionUnsupported { field: idx }),
                _ => Ok(v),
            }
        },
        None => Err(BfpError::UninitializedField { field: idx }),
    }
}

} // verus!
