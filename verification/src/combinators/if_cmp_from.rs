use vstd::prelude::*;

use crate::combinators::combinator_type::{spec_run, CombinatorType};
use crate::combinators::utils::{check_initialized, get, spec_check_initialized, spec_get};
use crate::errors::BfpError;
use crate::ordering::{contains_ord, spec_contains_ord, Ordering};
use crate::retrievers::retriever::Retriever;
use crate::types::parseable_type::{spec_cmp_value, view_table, ParseableType, SpecValue};
use crate::types::structure::spec_rets_wf;
use crate::types::version::Version;

verus! {

/// Compares the target and source fields' values and runs the nested
/// combinator when the comparison outcome lies in the given set. Fails if
/// the two values have no defined ordering.
#[derive(Debug)]
pub struct IfCmpFrom {
    pub target: usize,
    pub source: usize,
    pub ord: Vec<Ordering>,
    pub com: Box<CombinatorType>,
}

/// What running an `IfCmpFrom` does: reads both fields (which must be
/// populated), compares their values, and runs the nested combinator
/// exactly when the outcome lies in the requested set. Values without a
/// defined mutual order cannot be compared.
pub open spec fn spec_run_if_cmp_from(
    c: IfCmpFrom,
    rets: Seq<Retriever>,
    data: Seq<Option<SpecValue>>,
    repeats: Seq<Option<isize>>,
) -> Result<(Seq<Option<SpecValue>>, Seq<Option<isize>>), BfpError>
    decreases c,
{
    match spec_check_initialized(c.target, data) {
        Result::Err(e) => Result::Err(e),
        Result::Ok(()) => match spec_check_initialized(c.source, data) {
            Result::Err(e) => Result::Err(e),
            Result::Ok(()) => match spec_get(c.target, data) {
                Result::Err(e) => Result::Err(e),
                Result::Ok(tv) => match spec_get(c.source, data) {
                    Result::Err(e) => Result::Err(e),
                    Result::Ok(sv) => match spec_cmp_value(tv, sv) {
                        Option::None => Result::Err(BfpError::TypeMismatch { field: c.target }),
                        Option::Some(o) => if spec_contains_ord(c.ord@, o) {
                            spec_run(*c.com, rets, data, repeats)
                        } else {
                            Result::Ok((data, repeats))
                        },
                    },
                },
            },
        },
    }
}

impl IfCmpFrom {
    pub fn new(target: usize, source: usize, ord: Vec<Ordering>, com: CombinatorType) -> (r:
        IfCmpFrom)
        ensures
            r.target == target,
            r.source == source,
            r.ord == ord,
            r.com == com,
    {
        IfCmpFrom { target, source, ord, com: Box::new(com) }
    }

    /// Compares the two fields' values and runs the nested combinator when
    /// the outcome lies in the requested set.
    pub fn run(
        &self,
        retrievers: &Vec<Retriever>,
        data: &mut Vec<Option<ParseableType>>,
        repeats: &mut Vec<Option<isize>>,
        ver: &Version,
    ) -> (r: Result<(), BfpError>)
        requires
            spec_rets_wf(retrievers@),
            old(data)@.len() == retrievers@.len(),
            old(repeats)@.len() == retrievers@.len(),
        ensures
            final(data)@.len() == old(data)@.len(),
            final(repeats)@.len() == old(repeats)@.len(),
            (match spec_run_if_cmp_from(*self, retrievers@, view_table(old(data)@), old(repeats)@) {
                Result::Ok((d2, r2)) => r is Ok && view_table(final(data)@) == d2
                    && final(repeats)@ == r2,
                Result::Err(e) => r == Result::<(), BfpError>::Err(e) && view_table(final(data)@)
                    == view_table(old(data)@) && final(repeats)@ == old(repeats)@,
            }),
        decreases *self,
    {
        match check_initialized(self.target, data) {
            Ok(()) => (),
            Err(e) => {
                return Err(e);
            },
        }
        match check_initialized(self.source, data) {
            Ok(()) => (),
            Err(e) => {
                return Err(e);
            },
        }
        let target_val = match get(self.target, data) {
            Ok(v) => v,
            Err(e) => {
                return Err(e);
            },
        };
        let source_val = match get(self.source, data) {
            Ok(v) => v,
            Err(e) => {
                return Err(e);
            },
        };
        let o = match target_val.cmp_value(source_val) {
            Some(o) => o,
            None => {
                return Err(BfpError::TypeMismatch { field: self.target });
            },
        };
        if contains_ord(&self.ord, o) {
            self.com.run(retrievers, data, repeats, ver)
        } else {
            Ok(())
        }
    }
}

} // verus!
