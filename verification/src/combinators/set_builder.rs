use std::sync::Arc;

use vstd::prelude::*;

use crate::combinators::combinator_type::CombinatorType;
use crate::combinators::set_from::SetFrom;
use crate::combinators::set_from_len::SetFromLen;
use crate::combinators::set_to::SetTo;
use crate::errors::BfpError;
use crate::retrievers::retriever::Retriever;
use crate::types::bfp_type::{share_type, BfpType};
use crate::types::parseable_type::ParseableType;

verus! {

/// Builds an assignment combinator: it captures a target field and then
/// one call names where the new value comes from.
#[derive(Debug)]
pub struct SetBuilder {
    pub target: usize,
    pub target_data_type: Arc<BfpType>,
}

impl SetBuilder {
    /// The target's value will be copied from another field.
    pub fn from_(&self, from: &Retriever) -> (r: CombinatorType)
        ensures
            r == CombinatorType::SetFrom(SetFrom { target: self.target, source: from.idx }),
    {
        CombinatorType::SetFrom(SetFrom::new(self.target, from.idx))
    }

    /// The target's value will be the length of another field's list.
    pub fn from_len(&self, from: &Retriever) -> (r: CombinatorType)
        ensures
            r == CombinatorType::SetFromLen(SetFromLen { target: self.target, source: from.idx }),
    {
        CombinatorType::SetFromLen(SetFromLen::new(self.target, from.idx))
    }

    /// The target's value will be this constant, which must be a value of
    /// the target's declared type.
    pub fn to(&self, val: ParseableType) -> (r: Result<CombinatorType, BfpError>)
        ensures
            self.target_data_type.spec_accepts(val@) ==> r == Ok::<CombinatorType, BfpError>(
                CombinatorType::SetTo(SetTo { target: self.target, source: val }),
            ),
            !self.target_data_type.spec_accepts(val@) ==> r == Err::<CombinatorType, BfpError>(
                BfpError::TypeMismatch { field: self.target },
            ),
    {
        if !self.target_data_type.accepts(&val) {
            return Err(BfpError::TypeMismatch { field: self.target });
        }
        Ok(CombinatorType::SetTo(SetTo::new(self.target, val)))
    }
}

/// Starts an assignment to the given field.
pub fn set(target: &Retriever) -> (b: SetBuilder)
    ensures
        b.target == target.idx,
        b.target_data_type == target.data_type,
{
    SetBuilder { target: target.idx, target_data_type: share_type(&target.data_type) }
}

} // verus!
