use vstd::prelude::*;

use crate::combinators::combinator_type::CombinatorType;
use crate::combinators::set_repeat_from::SetRepeatFrom;
use crate::combinators::set_repeat_to::SetRepeatTo;
use crate::retrievers::retriever::Retriever;

verus! {

/// Builds a repeat-count override: it captures a target field and then one
/// call names where the count comes from.
#[derive(Debug)]
pub struct SetRepeatBuilder {
    pub target: usize,
}

impl SetRepeatBuilder {
    /// The target's repeat count will come from another field's value.
    pub fn from_(&self, from: &Retriever) -> (r: CombinatorType)
        ensures
            r == CombinatorType::SetRepeatFrom(
                SetRepeatFrom { target: self.target, source: from.idx },
            ),
    {
        CombinatorType::SetRepeatFrom(SetRepeatFrom::new(self.target, from.idx))
    }

    /// The target's repeat count will be this literal.
    pub fn to(&self, count: isize) -> (r: CombinatorType)
        ensures
            r == CombinatorType::SetRepeatTo(SetRepeatTo { target: self.target, source: count }),
    {
        CombinatorType::SetRepeatTo(SetRepeatTo::new(self.target, count))
    }
}

/// Starts a repeat-count override of the given field.
pub fn set_repeat(target: &Retriever) -> (b: SetRepeatBuilder)
    ensures
        b.target == target.idx,
{
    SetRepeatBuilder { target: target.idx }
}

} // verus!
