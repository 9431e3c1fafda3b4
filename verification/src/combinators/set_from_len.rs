use vstd::prelude::*;

use crate::combinators::utils::{check_initialized, get, spec_check_initialized, spec_get};
use crate::errors::BfpError;
use crate::retrievers::retriever::{RetState, Retriever};
use crate::types::parseable_type::{view_table, ParseableType, SpecValue};
use crate::types::structure::spec_rets_wf;
use crate::types::version::Version;

verus! {

/// Stores the length of the source field's list value into the target
/// field, narrowed to the target's declared integer width. Fails if the
/// source does not hold a list, or if the target is itself a list field or
/// not an integer field.
#[derive(Debug)]
pub struct SetFromLen {
    pub target: usize,
    pub source: usize,
}

/// What running a `SetFromLen` does: reads the source field's list length
/// and writes it, narrowed to the target's declared integer width, into
/// the target's value-table slot. A length cannot be stored into a slot
/// that currently holds a list, nor into a non-integer field.
pub open spec fn spec_run_set_from_len(
    c: SetFromLen,
    rets: Seq<Retriever>,
    data: Seq<Option<SpecValue>>,
    repeats: Seq<Option<isize>>,
) -> Result<(Seq<Option<SpecValue>>, Seq<Option<isize>>), BfpError> {
    match spec_check_initialized(c.target, data) {
        Result::Err(e) => Result::Err(e),
        Result::Ok(()) => match spec_check_initialized(c.source, data) {
            Result::Err(e) => Result::Err(e),
            Result::Ok(()) => match spec_get(c.source, data) {
                Result::Err(e) => Result::Err(e),
                Result::Ok(v) => match v {
                    SpecValue::Array(ls) => {
                        let t = rets[c.target as int];
                        let narrowed = t.data_type.spec_to_parseable_from_usize(
                            ls.elems.len() as usize,
                        );
                        if t.spec_state(repeats) == RetState::List || narrowed is None {
                            Result::Err(BfpError::TypeMismatch { field: c.target })
                        } else {
                            Result::Ok(
                                (
                                    data.update(
                                        c.target as int,
                                        Option::Some(narrowed->Some_0@),
                                    ),
                                    repeats,
                                ),
                            )
                        }
                    },
                    _ => Result::Err(BfpError::TypeMismatch { field: c.source }),
                },
            },
        },
    }
}

impl SetFromLen {
    pub fn new(target: usize, source: usize) -> (r: SetFromLen)
        ensures
            r == (SetFromLen { target, source }),
    {
        SetFromLen { target, source }
    }

    /// Writes the source field's list length into the target field's slot.
    pub fn run(
        &self,
        retrievers: &Vec<Retriever>,
        data: &mut Vec<Option<ParseableType>>,
        repeats: &mut Vec<Option<isize>>,
        _ver: &Version,
    ) -> (r: Result<(), BfpError>)
        requires
            spec_rets_wf(retrievers@),
            old(data)@.len() == retrievers@.len(),
            old(repeats)@.len() == retrievers@.len(),
        ensures
            final(data)@.len() == old(data)@.len(),
            final(repeats)@.len() == old(repeats)@.len(),
            (match spec_run_set_from_len(*self, retrievers@, view_table(old(data)@), old(repeats)@) {
                Result::Ok((d2, r2)) => r is Ok && view_table(final(data)@) == d2
                    && final(repeats)@ == r2,
                Result::Err(e) => r == Result::<(), BfpError>::Err(e) && view_table(final(data)@)
                    == view_table(old(data)@) && final(repeats)@ == old(repeats)@,
            }),
    {
        match check_initialized(self.target, data) {
            Ok(()) => (),
            Err(e) => {
                return Err(e);
            },
        }
        match check_initialized(self.source, data) {
            Ok(()) => (),
            Err(e) => {
                return Err(e);
            },
        }
        let source_val = match get(self.source, data) {
            Ok(v) => v,
            Err(e) => {
                return Err(e);
            },
        };
        let n = match source_val {
            ParseableType::Array(ls) => ls.len(),
            _ => {
                return Err(BfpError::TypeMismatch { field: self.source });
            },
        };
        let target_ret = &retrievers[self.target];
        let narrowed = target_ret.data_type.to_parseable_from_usize(n);
        let is_list = match target_ret.state(repeats) {
            RetState::List => true,
            _ => false,
        };
        let value = match narrowed {
            Some(pv) => {
                if is_list {
                    return Err(BfpError::TypeMismatch { field: self.target });
                }
                pv
            },
            None => {
                return Err(BfpError::TypeMismatch { field: self.target });
            },
        };
        let ghost sv = value@;
        data.set(self.target, Some(value));
        proof {
            assert(view_table(data@) =~= view_table(old(data)@).update(
                self.target as int,
                Option::Some(sv),
            ));
        }
        Ok(())
    }
}

} // verus!
