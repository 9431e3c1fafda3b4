use vstd::prelude::*;

use crate::errors::BfpError;
use crate::retrievers::retriever::{RetState, Retriever};
use crate::types::parseable_type::{spec_is_ls_of, view_table, ParseableType, SpecValue};
use crate::types::structure::spec_rets_wf;
use crate::types::version::Version;

verus! {

/// Overwrites the target field's value with a fixed constant, type-checked
/// against the target's declared element type if the target is currently a
/// list field.
#[derive(Debug)]
pub struct SetTo {
    pub target: usize,
    pub source: ParseableType,
}

/// What running a `SetTo` does: writes the constant into the target's
/// value-table slot. When the target is currently a list field the
/// constant must be a list of the target's declared element kind.
pub open spec fn spec_run_set_to(
    c: SetTo,
    rets: Seq<Retriever>,
    data: Seq<Option<SpecValue>>,
    repeats: Seq<Option<isize>>,
) -> Result<(Seq<Option<SpecValue>>, Seq<Option<isize>>), BfpError> {
    if c.target >= rets.len() || c.target >= data.len() {
        Result::Err(BfpError::UninitializedField { field: c.target })
    } else {
        let t = rets[c.target as int];
        if t.spec_state(repeats) == RetState::List && !spec_is_ls_of(c.source@, *t.data_type) {
            Result::Err(BfpError::TypeMismatch { field: c.target })
        } else {
            Result::Ok((data.update(c.target as int, Option::Some(c.source@)), repeats))
        }
    }
}

impl SetTo {
    pub fn new(target: usize, source: ParseableType) -> (r: SetTo)
        ensures
            r == (SetTo { target, source }),
    {
        SetTo { target, source }
    }

    /// Writes the constant into the target field's value-table slot.
    pub fn run(
        &self,
        retrievers: &Vec<Retriever>,
        data: &mut Vec<Option<ParseableType>>,
        repeats: &mut Vec<Option<isize>>,
        _ver: &Version,
    ) -> (r: Result<(), BfpError>)
        requires
            spec_rets_wf(retrievers@),
            old(data)@.len() == retrievers@.len(),
            old(repeats)@.len() == retrievers@.len(),
        ensures
            final(data)@.len() == old(data)@.len(),
            final(repeats)@.len() == old(repeats)@.len(),
            (match spec_run_set_to(*self, retrievers@, view_table(old(data)@), old(repeats)@) {
                Result::Ok((d2, r2)) => r is Ok && view_table(final(data)@) == d2
                    && final(repeats)@ == r2,
                Result::Err(e) => r == Result::<(), BfpError>::Err(e) && view_table(final(data)@)
                    == view_table(old(data)@) && final(repeats)@ == old(repeats)@,
            }),
    {
        if self.target >= retrievers.len() || self.target >= data.len() {
            return Err(BfpError::UninitializedField { field: self.target });
        }
        let target_ret = &retrievers[self.target];
        let is_list = match target_ret.state(repeats) {
            RetState::List => true,
            _ => false,
        };
        if is_list && !self.source.is_ls_of(&*target_ret.data_type) {
            return Err(BfpError::TypeMismatch { field: self.target });
        }
        let value = self.source.duplicate();
        data.set(self.target, Some(value));
        proof {
            assert(view_table(data@) =~= view_table(old(data)@).update(
                self.target as int,
                Option::Some(self.source@),
            ));
        }
        Ok(())
    }
}

} // verus!
