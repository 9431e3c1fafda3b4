use vstd::prelude::*;

use crate::combinators::utils::{check_initialized, get, spec_check_initialized, spec_get};
use crate::errors::BfpError;
use crate::retrievers::retriever::{RetState, Retriever};
use crate::types::parseable_type::{spec_is_ls_of, view_table, view_value, ParseableType, SpecValue};
use crate::types::structure::spec_rets_wf;
use crate::types::version::Version;

verus! {

/// Copies the source field's current value into the target field,
/// type-checked against the target's declared element type if the target
/// is currently a list field.
#[derive(Debug)]
pub struct SetFrom {
    pub target: usize,
    pub source: usize,
}

/// What running a `SetFrom` does: reads the source field (which must be
/// populated) and writes its value into the target's value-table slot,
/// with the list-kind check when the target is currently a list field.
pub open spec fn spec_run_set_from(
    c: SetFrom,
    rets: Seq<Retriever>,
    data: Seq<Option<SpecValue>>,
    repeats: Seq<Option<isize>>,
) -> Result<(Seq<Option<SpecValue>>, Seq<Option<isize>>), BfpError> {
    match spec_check_initialized(c.target, data) {
        Result::Err(e) => Result::Err(e),
        Result::Ok(()) => match spec_check_initialized(c.source, data) {
            Result::Err(e) => Result::Err(e),
            Result::Ok(()) => match spec_get(c.source, data) {
                Result::Err(e) => Result::Err(e),
                Result::Ok(v) => {
                    let t = rets[c.target as int];
                    if t.spec_state(repeats) == RetState::List && !spec_is_ls_of(v, *t.data_type) {
                        Result::Err(BfpError::TypeMismatch { field: c.target })
                    } else {
                        Result::Ok((data.update(c.target as int, Option::Some(v)), repeats))
                    }
                },
            },
        },
    }
}

impl SetFrom {
    pub fn new(target: usize, source: usize) -> (r: SetFrom)
        ensures
            r == (SetFrom { target, source }),
    {
        SetFrom { target, source }
    }

    /// Copies the source field's value into the target field's slot.
    pub fn run(
        &self,
        retrievers: &Vec<Retriever>,
        data: &mut Vec<Option<ParseableType>>,
        repeats: &mut Vec<Option<isize>>,
        _ver: &Version,
    ) -> (r: Result<(), BfpError>)
        requires
            spec_rets_wf(retrievers@),
            old(data)@.len() == retrievers@.len(),
            old(repeats)@.len() == retrievers@.len(),
        ensures
            final(data)@.len() == old(data)@.len(),
            final(repeats)@.len() == old(repeats)@.len(),
            (match spec_run_set_from(*self, retrievers@, view_table(old(data)@), old(repeats)@) {
                Result::Ok((d2, r2)) => r is Ok && view_table(final(data)@) == d2
                    && final(repeats)@ == r2,
                Result::Err(e) => r == Result::<(), BfpError>::Err(e) && view_table(final(data)@)
                    == view_table(old(data)@) && final(repeats)@ == old(repeats)@,
            }),
    {
        match check_initialized(self.target, data) {
            Ok(()) => (),
            Err(e) => {
                return Err(e);
            },
        }
        match check_initialized(self.source, data) {
            Ok(()) => (),
            Err(e) => {
                return Err(e);
            },
        }
        let source_val = match get(self.source, data) {
            Ok(v) => v,
            Err(e) => {
                return Err(e);
            },
        };
        let target_ret = &retrievers[self.target];
        let is_list = match target_ret.state(repeats) {
            RetState::List => true,
            _ => false,
        };
        if is_list && !source_val.is_ls_of(&*target_ret.data_type) {
            return Err(BfpError::TypeMismatch { field: self.target });
        }
        let value = source_val.duplicate();
        let ghost sv = view_value(*source_val);
        data.set(self.target, Some(value));
        proof {
            assert(view_table(data@) =~= view_table(old(data)@).update(
                self.target as int,
                Option::Some(sv),
            ));
        }
        Ok(())
    }
}

} // verus!
