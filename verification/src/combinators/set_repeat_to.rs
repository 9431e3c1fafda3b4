use vstd::prelude::*;

use crate::errors::BfpError;
use crate::retrievers::retriever::Retriever;
use crate::types::parseable_type::{view_table, ParseableType, SpecValue};
use crate::types::structure::spec_rets_wf;
use crate::types::version::Version;

verus! {

/// Overrides the target field's repeat count for this parse with a literal
/// count.
#[derive(Debug)]
pub struct SetRepeatTo {
    pub target: usize,
    pub source: isize,
}

/// What running a `SetRepeatTo` does: writes the literal into the repeat
/// table, failing only when the target slot does not exist.
pub open spec fn spec_run_set_repeat_to(
    c: SetRepeatTo,
    rets: Seq<Retriever>,
    data: Seq<Option<SpecValue>>,
    repeats: Seq<Option<isize>>,
) -> Result<(Seq<Option<SpecValue>>, Seq<Option<isize>>), BfpError> {
    if c.target >= repeats.len() {
        Result::Err(BfpError::UninitializedField { field: c.target })
    } else {
        Result::Ok((data, repeats.update(c.target as int, Option::Some(c.source))))
    }
}

impl SetRepeatTo {
    pub fn new(target: usize, source: isize) -> (r: SetRepeatTo)
        ensures
            r == (SetRepeatTo { target, source }),
    {
        SetRepeatTo { target, source }
    }

    /// Writes the literal count into the target's repeat-table slot.
    pub fn run(
        &self,
        retrievers: &Vec<Retriever>,
        data: &mut Vec<Option<ParseableType>>,
        repeats: &mut Vec<Option<isize>>,
        _ver: &Version,
    ) -> (r: Result<(), BfpError>)
        requires
            spec_rets_wf(retrievers@),
            old(data)@.len() == retrievers@.len(),
            old(repeats)@.len() == retrievers@.len(),
        ensures
            final(data)@.len() == old(data)@.len(),
            final(repeats)@.len() == old(repeats)@.len(),
            (match spec_run_set_repeat_to(
                *self,
                retrievers@,
                view_table(old(data)@),
                old(repeats)@,
            ) {
                Result::Ok((d2, r2)) => r is Ok && view_table(final(data)@) == d2
                    && final(repeats)@ == r2,
                Result::Err(e) => r == Result::<(), BfpError>::Err(e) && view_table(final(data)@)
                    == view_table(old(data)@) && final(repeats)@ == old(repeats)@,
            }),
    {
        if self.target >= repeats.len() {
            return Err(BfpError::UninitializedField { field: self.target });
        }
        repeats.set(self.target, Some(self.source));
        Ok(())
    }
}

} // verus!
