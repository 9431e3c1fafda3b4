use vstd::prelude::*;

use crate::combinators::combinator_type::{spec_run, CombinatorType};
use crate::combinators::utils::{check_initialized, get, spec_check_initialized, spec_get};
use crate::errors::BfpError;
use crate::ordering::{contains_ord, spec_contains_ord, Ordering};
use crate::retrievers::retriever::Retriever;
use crate::types::parseable_type::{spec_cmp_value, view_table, ParseableType, SpecValue};
use crate::types::structure::spec_rets_wf;
use crate::types::version::Version;

verus! {

/// Compares the target field's value against a constant baked in at
/// schema-definition time and runs the nested combinator when the outcome
/// lies in the given set. The constant was type-checked against the
/// target's type when the schema was built, so on scalar fields the
/// comparison always has an outcome; a target that currently holds a list
/// or a NaN still cannot be compared and fails with a type error rather
/// than aborting the process.
#[derive(Debug)]
pub struct IfCmpTo {
    pub target: usize,
    pub source: ParseableType,
    pub ord: Vec<Ordering>,
    pub com: Box<CombinatorType>,
}

/// What running an `IfCmpTo` does: reads the target field (which must be
/// populated), compares its value against the constant, and runs the
/// nested combinator exactly when the outcome lies in the requested set.
pub open spec fn spec_run_if_cmp_to(
    c: IfCmpTo,
    rets: Seq<Retriever>,
    data: Seq<Option<SpecValue>>,
    repeats: Seq<Option<isize>>,
) -> Result<(Seq<Option<SpecValue>>, Seq<Option<isize>>), BfpError>
    decreases c,
{
    match spec_check_initialized(c.target, data) {
        Result::Err(e) => Result::Err(e),
        Result::Ok(()) => match spec_get(c.target, data) {
            Result::Err(e) => Result::Err(e),
            Result::Ok(tv) => match spec_cmp_value(tv, c.source@) {
                Option::None => Result::Err(BfpError::TypeMismatch { field: c.target }),
                Option::Some(o) => if spec_contains_ord(c.ord@, o) {
                    spec_run(*c.com, rets, data, repeats)
                } else {
                    Result::Ok((data, repeats))
                },
            },
        },
    }
}

impl IfCmpTo {
    pub fn new(target: usize, source: ParseableType, ord: Vec<Ordering>, com: CombinatorType) -> (r: IfCmpTo)
        ensures
            r.target == target,
            r.source == source,
            r.ord == ord,
            r.com == com,
    {
        IfCmpTo { target, source, ord, com: Box::new(com) }
    }

    /// Compares the target field's value against the constant and runs the
    /// nested combinator when the outcome lies in the requested set.
    pub fn run(
        &self,
        retrievers: &Vec<Retriever>,
        data: &mut Vec<Option<ParseableType>>,
        repeats: &mut Vec<Option<isize>>,
        ver: &Version,
    ) -> (r: Result<(), BfpError>)
        requires
            spec_rets_wf(retrievers@),
            old(data)@.len() == retrievers@.len(),
            old(repeats)@.len() == retrievers@.len(),
        ensures
            final(data)@.len() == old(data)@.len(),
            final(repeats)@.len() == old(repeats)@.len(),
            (match spec_run_if_cmp_to(*self, retrievers@, view_table(old(data)@), old(repeats)@) {
                Result::Ok((d2, r2)) => r is Ok && view_table(final(data)@) == d2
                    && final(repeats)@ == r2,
                Result::Err(e) => r == Result::<(), BfpError>::Err(e) && view_table(final(data)@)
                    == view_table(old(data)@) && final(repeats)@ == old(repeats)@,
            }),
        decreases *self,
    {
        match check_initialized(self.target, data) {
            Ok(()) => (),
            Err(e) => {
                return Err(e);
            },
        }
        let target_val = match get(self.target, data) {
            Ok(v) => v,
            Err(e) => {
                return Err(e);
            },
        };
        let o = match target_val.cmp_value(&self.source) {
            Some(o) => o,
            None => {
                return Err(BfpError::TypeMismatch { field: self.target });
            },
        };
        if contains_ord(&self.ord, o) {
            self.com.run(retrievers, data, repeats, ver)
        } else {
            Ok(())
        }
    }
}

} // verus!
