use vstd::prelude::*;

use crate::combinators::combinator_type::{spec_run, CombinatorType};
use crate::combinators::utils::{check_initialized, get, spec_check_initialized, spec_get};
use crate::errors::BfpError;
use crate::retrievers::retriever::Retriever;
use crate::types::parseable_type::{spec_as_bool, view_table, ParseableType, SpecValue};
use crate::types::structure::spec_rets_wf;
use crate::types::version::Version;

verus! {

/// Runs the nested combinator when the condition field's value, which must
/// be boolean-convertible, is true.
#[derive(Debug)]
pub struct IfCheck {
    pub source: usize,
    pub com: Box<CombinatorType>,
}

/// What running an `IfCheck` does: reads the condition field (which must
/// be populated and hold a boolean) and runs the nested combinator exactly
/// when it is true.
pub open spec fn spec_run_if_check(
    c: IfCheck,
    rets: Seq<Retriever>,
    data: Seq<Option<SpecValue>>,
    repeats: Seq<Option<isize>>,
) -> Result<(Seq<Option<SpecValue>>, Seq<Option<isize>>), BfpError>
    decreases c,
{
    match spec_check_initialized(c.source, data) {
        Result::Err(e) => Result::Err(e),
        Result::Ok(()) => match spec_get(c.source, data) {
            Result::Err(e) => Result::Err(e),
            Result::Ok(v) => match spec_as_bool(v) {
                Option::None => Result::Err(BfpError::TypeMismatch { field: c.source }),
                Option::Some(b) => if b {
                    spec_run(*c.com, rets, data, repeats)
                } else {
                    Result::Ok((data, repeats))
                },
            },
        },
    }
}

impl IfCheck {
    pub fn new(source: usize, com: CombinatorType) -> (r: IfCheck)
        ensures
            r.source == source,
            r.com == com,
    {
        IfCheck { source, com: Box::new(com) }
    }

    /// Reads the condition field and runs the nested combinator when the
    /// condition holds.
    pub fn run(
        &self,
        retrievers: &Vec<Retriever>,
        data: &mut Vec<Option<ParseableType>>,
        repeats: &mut Vec<Option<isize>>,
        ver: &Version,
    ) -> (r: Result<(), BfpError>)
        requires
            spec_rets_wf(retrievers@),
            old(data)@.len() == retrievers@.len(),
            old(repeats)@.len() == retrievers@.len(),
        ensures
            final(data)@.len() == old(data)@.len(),
            final(repeats)@.len() == old(repeats)@.len(),
            (match spec_run_if_check(*self, retrievers@, view_table(old(data)@), old(repeats)@) {
                Result::Ok((d2, r2)) => r is Ok && view_table(final(data)@) == d2
                    && final(repeats)@ == r2,
                Result::Err(e) => r == Result::<(), BfpError>::Err(e) && view_table(final(data)@)
                    == view_table(old(data)@) && final(repeats)@ == old(repeats)@,
            }),
        decreases *self,
    {
        match check_initialized(self.source, data) {
            Ok(()) => (),
            Err(e) => {
                return Err(e);
            },
        }
        let source_val = match get(self.source, data) {
            Ok(v) => v,
            Err(e) => {
                return Err(e);
            },
        };
        let cond = match source_val.to_bool() {
            Some(b) => b,
            None => {
                return Err(BfpError::TypeMismatch { field: self.source });
            },
        };
        if cond {
            self.com.run(retrievers, data, repeats, ver)
        } else {
            Ok(())
        }
    }
}

} // verus!
