use vstd::prelude::*;

use crate::combinators::utils::{check_initialized, get, spec_check_initialized, spec_get};
use crate::errors::BfpError;
use crate::retrievers::retriever::Retriever;
use crate::types::parseable_type::{spec_as_isize, view_table, ParseableType, SpecValue};
use crate::types::structure::spec_rets_wf;
use crate::types::version::Version;

verus! {

/// Overrides the target field's repeat count for this parse with the
/// source field's already-parsed value, narrowed to an integer. This is
/// how a length-prefixed array declares its element count.
#[derive(Debug)]
pub struct SetRepeatFrom {
    pub target: usize,
    pub source: usize,
}

/// What running a `SetRepeatFrom` does: reads the source field (which must
/// be populated and hold an integer) and writes the narrowed count into
/// the target's repeat-table slot.
pub open spec fn spec_run_set_repeat_from(
    c: SetRepeatFrom,
    rets: Seq<Retriever>,
    data: Seq<Option<SpecValue>>,
    repeats: Seq<Option<isize>>,
) -> Result<(Seq<Option<SpecValue>>, Seq<Option<isize>>), BfpError> {
    match spec_check_initialized(c.source, data) {
        Result::Err(e) => Result::Err(e),
        Result::Ok(()) => match spec_get(c.source, data) {
            Result::Err(e) => Result::Err(e),
            Result::Ok(v) => match spec_as_isize(v) {
                Option::None => Result::Err(BfpError::TypeMismatch { field: c.source }),
                Option::Some(n) => if c.target >= repeats.len() {
                    Result::Err(BfpError::UninitializedField { field: c.target })
                } else {
                    Result::Ok((data, repeats.update(c.target as int, Option::Some(n))))
                },
            },
        },
    }
}

impl SetRepeatFrom {
    pub fn new(target: usize, source: usize) -> (r: SetRepeatFrom)
        ensures
            r == (SetRepeatFrom { target, source }),
    {
        SetRepeatFrom { target, source }
    }

    /// Reads the source field and writes its value, narrowed to a machine
    /// integer, into the target's repeat-table slot.
    pub fn run(
        &self,
        retrievers: &Vec<Retriever>,
        data: &mut Vec<Option<ParseableType>>,
        repeats: &mut Vec<Option<isize>>,
        _ver: &Version,
    ) -> (r: Result<(), BfpError>)
        requires
            spec_rets_wf(retrievers@),
            old(data)@.len() == retrievers@.len(),
            old(repeats)@.len() == retrievers@.len(),
        ensures
            final(data)@.len() == old(data)@.len(),
            final(repeats)@.len() == old(repeats)@.len(),
            (match spec_run_set_repeat_from(
                *self,
                retrievers@,
                view_table(old(data)@),
                old(repeats)@,
            ) {
                Result::Ok((d2, r2)) => r is Ok && view_table(final(data)@) == d2
                    && final(repeats)@ == r2,
                Result::Err(e) => r == Result::<(), BfpError>::Err(e) && view_table(final(data)@)
                    == view_table(old(data)@) && final(repeats)@ == old(repeats)@,
            }),
    {
        match check_initialized(self.source, data) {
            Ok(()) => (),
            Err(e) => {
                return Err(e);
            },
        }
        let source_val = match get(self.source, data) {
            Ok(v) => v,
            Err(e) => {
                return Err(e);
            },
        };
        let n = match source_val.to_isize() {
            Some(n) => n,
            None => {
                return Err(BfpError::TypeMismatch { field: self.source });
            },
        };
        if self.target >= repeats.len() {
            return Err(BfpError::UninitializedField { field: self.target });
        }
        repeats.set(self.target, Some(n));
        Ok(())
    }
}

} // verus!
