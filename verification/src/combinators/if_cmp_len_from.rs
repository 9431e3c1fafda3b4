use vstd::prelude::*;

use crate::combinators::combinator_type::{spec_run, CombinatorType};
use crate::combinators::utils::{check_initialized, get, spec_check_initialized, spec_get};
use crate::errors::BfpError;
use crate::ordering::{contains_ord, spec_contains_ord, Ordering};
use crate::retrievers::retriever::Retriever;
use crate::types::parseable_type::{
    cmp_i128, spec_as_isize, spec_cmp_int, view_table, ParseableType, SpecValue,
};
use crate::types::structure::spec_rets_wf;
use crate::types::version::Version;

verus! {

/// Compares the length of the target field's list value against the source
/// field's integer value and runs the nested combinator when the outcome
/// lies in the given set. Fails if the target does not hold a list or the
/// source does not hold an integer.
#[derive(Debug)]
pub struct IfCmpLenFrom {
    pub target: usize,
    pub source: usize,
    pub ord: Vec<Ordering>,
    pub com: Box<CombinatorType>,
}

/// What running an `IfCmpLenFrom` does: reads both fields (which must be
/// populated), compares the target's list length against the source's
/// integer value, and runs the nested combinator exactly when the outcome
/// lies in the requested set.
pub open spec fn spec_run_if_cmp_len_from(
    c: IfCmpLenFrom,
    rets: Seq<Retriever>,
    data: Seq<Option<SpecValue>>,
    repeats: Seq<Option<isize>>,
) -> Result<(Seq<Option<SpecValue>>, Seq<Option<isize>>), BfpError>
    decreases c,
{
    match spec_check_initialized(c.target, data) {
        Result::Err(e) => Result::Err(e),
        Result::Ok(()) => match spec_check_initialized(c.source, data) {
            Result::Err(e) => Result::Err(e),
            Result::Ok(()) => match spec_get(c.target, data) {
                Result::Err(e) => Result::Err(e),
                Result::Ok(tv) => match tv {
                    SpecValue::Array(ls) => match spec_get(c.source, data) {
                        Result::Err(e) => Result::Err(e),
                        Result::Ok(sv) => match spec_as_isize(sv) {
                            Option::None => Result::Err(BfpError::TypeMismatch { field: c.source }),
                            Option::Some(n) => {
                                let o = spec_cmp_int(ls.elems.len() as int, n as int);
                                if spec_contains_ord(c.ord@, o) {
                                    spec_run(*c.com, rets, data, repeats)
                                } else {
                                    Result::Ok((data, repeats))
                                }
                            },
                        },
                    },
                    _ => Result::Err(BfpError::TypeMismatch { field: c.target }),
                },
            },
        },
    }
}

impl IfCmpLenFrom {
    pub fn new(target: usize, source: usize, ord: Vec<Ordering>, com: CombinatorType) -> (r:
        IfCmpLenFrom)
        ensures
            r.target == target,
            r.source == source,
            r.ord == ord,
            r.com == com,
    {
        IfCmpLenFrom { target, source, ord, com: Box::new(com) }
    }

    /// Compares the target's list length against the source field's value
    /// and runs the nested combinator when the outcome lies in the
    /// requested set.
    pub fn run(
        &self,
        retrievers: &Vec<Retriever>,
        data: &mut Vec<Option<ParseableType>>,
        repeats: &mut Vec<Option<isize>>,
        ver: &Version,
    ) -> (r: Result<(), BfpError>)
        requires
            spec_rets_wf(retrievers@),
            old(data)@.len() == retrievers@.len(),
            old(repeats)@.len() == retrievers@.len(),
        ensures
            final(data)@.len() == old(data)@.len(),
            final(repeats)@.len() == old(repeats)@.len(),
            (match spec_run_if_cmp_len_from(
                *self,
                retrievers@,
                view_table(old(data)@),
                old(repeats)@,
            ) {
                Result::Ok((d2, r2)) => r is Ok && view_table(final(data)@) == d2
                    && final(repeats)@ == r2,
                Result::Err(e) => r == Result::<(), BfpError>::Err(e) && view_table(final(data)@)
                    == view_table(old(data)@) && final(repeats)@ == old(repeats)@,
            }),
        decreases *self,
    {
        match check_initialized(self.target, data) {
            Ok(()) => (),
            Err(e) => {
                return Err(e);
            },
        }
        match check_initialized(self.source, data) {
            Ok(()) => (),
            Err(e) => {
                return Err(e);
            },
        }
        let target_val = match get(self.target, data) {
            Ok(v) => v,
            Err(e) => {
                return Err(e);
            },
        };
        let len = match target_val {
            ParseableType::Array(ls) => ls.len(),
            _ => {
                return Err(BfpError::TypeMismatch { field: self.target });
            },
        };
        let source_val = match get(self.source, data) {
            Ok(v) => v,
            Err(e) => {
                return Err(e);
            },
        };
        let n = match source_val.to_isize() {
            Some(n) => n,
            None => {
                return Err(BfpError::TypeMismatch { field: self.source });
            },
        };
        let o = cmp_i128(len as i128, n as i128);
        if contains_ord(&self.ord, o) {
            self.com.run(retrievers, data, repeats, ver)
        } else {
            Ok(())
        }
    }
}

} // verus!
