use vstd::prelude::*;

use crate::combinators::if_check::{spec_run_if_check, IfCheck};
use crate::combinators::if_cmp_from::{spec_run_if_cmp_from, IfCmpFrom};
use crate::combinators::if_cmp_len_from::{spec_run_if_cmp_len_from, IfCmpLenFrom};
use crate::combinators::if_cmp_len_to::{spec_run_if_cmp_len_to, IfCmpLenTo};
use crate::combinators::if_cmp_to::{spec_run_if_cmp_to, IfCmpTo};
use crate::combinators::set_from::{spec_run_set_from, SetFrom};
use crate::combinators::set_from_len::{spec_run_set_from_len, SetFromLen};
use crate::combinators::set_repeat_from::{spec_run_set_repeat_from, SetRepeatFrom};
use crate::combinators::set_repeat_to::{spec_run_set_repeat_to, SetRepeatTo};
use crate::combinators::set_to::{spec_run_set_to, SetTo};
use crate::errors::BfpError;
use crate::retrievers::retriever::Retriever;
use crate::types::parseable_type::{view_table, ParseableType, SpecValue};
use crate::types::structure::spec_rets_wf;
use crate::types::version::Version;

verus! {

/// One step of a declarative dependency program over a record's value and
/// repeat-count tables: an assignment, a repeat override, or a conditional
/// wrapping another step. A closed union, dispatched by pattern match;
/// new operations become new variants.
#[derive(Debug)]
pub enum CombinatorType {
    SetRepeatFrom(SetRepeatFrom),
    SetRepeatTo(SetRepeatTo),
    IfCmpFrom(IfCmpFrom),
    IfCmpTo(IfCmpTo),
    IfCheck(IfCheck),
    IfCmpLenFrom(IfCmpLenFrom),
    IfCmpLenTo(IfCmpLenTo),
    SetFrom(SetFrom),
    SetFromLen(SetFromLen),
    SetTo(SetTo),
}

/// What running one combinator does to the two tables: either both new
/// tables, or the error that aborts the enclosing parse. Evaluation is
/// depth-first and short-circuiting: of a conditional only the taken
/// branch's nested combinator runs.
pub open spec fn spec_run(
    c: CombinatorType,
    rets: Seq<Retriever>,
    data: Seq<Option<SpecValue>>,
    repeats: Seq<Option<isize>>,
) -> Result<(Seq<Option<SpecValue>>, Seq<Option<isize>>), BfpError>
    decreases c,
{
    match c {
        CombinatorType::SetRepeatFrom(com) => spec_run_set_repeat_from(com, rets, data, repeats),
        CombinatorType::SetRepeatTo(com) => spec_run_set_repeat_to(com, rets, data, repeats),
        CombinatorType::IfCmpFrom(com) => spec_run_if_cmp_from(com, rets, data, repeats),
        CombinatorType::IfCmpTo(com) => spec_run_if_cmp_to(com, rets, data, repeats),
        CombinatorType::IfCheck(com) => spec_run_if_check(com, rets, data, repeats),
        CombinatorType::IfCmpLenFrom(com) => spec_run_if_cmp_len_from(com, rets, data, repeats),
        CombinatorType::IfCmpLenTo(com) => spec_run_if_cmp_len_to(com, rets, data, repeats),
        CombinatorType::SetFrom(com) => spec_run_set_from(com, rets, data, repeats),
        CombinatorType::SetFromLen(com) => spec_run_set_from_len(com, rets, data, repeats),
        CombinatorType::SetTo(com) => spec_run_set_to(com, rets, data, repeats),
    }
}

/// What running a whole combinator chain does: each step in order on the
/// tables the previous step left, aborting at the first error.
pub open spec fn spec_run_chain(
    chain: Seq<CombinatorType>,
    rets: Seq<Retriever>,
    data: Seq<Option<SpecValue>>,
    repeats: Seq<Option<isize>>,
) -> Result<(Seq<Option<SpecValue>>, Seq<Option<isize>>), BfpError>
    decreases chain.len(),
{
    if chain.len() == 0 {
        Result::Ok((data, repeats))
    } else {
        match spec_run(chain[0], rets, data, repeats) {
            Result::Err(e) => Result::Err(e),
            Result::Ok((d2, r2)) => spec_run_chain(chain.skip(1), rets, d2, r2),
        }
    }
}

impl CombinatorType {
    /// Runs this combinator on the tables of one in-flight parse.
    pub fn run(
        &self,
        retrievers: &Vec<Retriever>,
        data: &mut Vec<Option<ParseableType>>,
        repeats: &mut Vec<Option<isize>>,
        ver: &Version,
    ) -> (r: Result<(), BfpError>)
        requires
            spec_rets_wf(retrievers@),
            old(data)@.len() == retrievers@.len(),
            old(repeats)@.len() == retrievers@.len(),
        ensures
            final(data)@.len() == old(data)@.len(),
            final(repeats)@.len() == old(repeats)@.len(),
            (match spec_run(*self, retrievers@, view_table(old(data)@), old(repeats)@) {
                Result::Ok((d2, r2)) => r is Ok && view_table(final(data)@) == d2
                    && final(repeats)@ == r2,
                Result::Err(e) => r == Result::<(), BfpError>::Err(e) && view_table(final(data)@)
                    == view_table(old(data)@) && final(repeats)@ == old(repeats)@,
            }),
        decreases *self,
    {
        match self {
            CombinatorType::SetRepeatFrom(com) => com.run(retrievers, data, repeats, ver),
            CombinatorType::SetRepeatTo(com) => com.run(retrievers, data, repeats, ver),
            CombinatorType::IfCmpFrom(com) => com.run(retrievers, data, repeats, ver),
            CombinatorType::IfCmpTo(com) => com.run(retrievers, data, repeats, ver),
            CombinatorType::IfCheck(com) => com.run(retrievers, data, repeats, ver),
            CombinatorType::IfCmpLenFrom(com) => com.run(retrievers, data, repeats, ver),
            CombinatorType::IfCmpLenTo(com) => com.run(retrievers, data, repeats, ver),
            CombinatorType::SetFrom(com) => com.run(retrievers, data, repeats, ver),
            CombinatorType::SetFromLen(com) => com.run(retrievers, data, repeats, ver),
            CombinatorType::SetTo(com) => com.run(retrievers, data, repeats, ver),
        }
    }
}

/// Runs a whole combinator chain in order on the tables of one in-flight
/// parse, aborting at the first error.
pub fn run_chain(
    chain: &Vec<CombinatorType>,
    retrievers: &Vec<Retriever>,
    data: &mut Vec<Option<ParseableType>>,
    repeats: &mut Vec<Option<isize>>,
    ver: &Version,
) -> (r: Result<(), BfpError>)
    requires
        spec_rets_wf(retrievers@),
        old(data)@.len() == retrievers@.len(),
        old(repeats)@.len() == retrievers@.len(),
    ensures
        final(data)@.len() == old(data)@.len(),
        final(repeats)@.len() == old(repeats)@.len(),
        (match spec_run_chain(chain@, retrievers@, view_table(old(data)@), old(repeats)@) {
            Result::Ok((d2, r2)) => r is Ok && view_table(final(data)@) == d2
                && final(repeats)@ == r2,
            Result::Err(e) => r == Result::<(), BfpError>::Err(e),
        }),
{
    let n = chain.len();
    let mut k: usize = 0;
    proof {
        assert(chain@.skip(0) =~= chain@);
    }
    while k < n
        invariant
            0 <= k <= n,
            n == chain@.len(),
            spec_rets_wf(retrievers@),
            data@.len() == retrievers@.len(),
            repeats@.len() == retrievers@.len(),
            data@.len() == old(data)@.len(),
            repeats@.len() == old(repeats)@.len(),
            (match spec_run_chain(chain@.skip(k as int), retrievers@, view_table(data@), repeats@) {
                Result::Ok((d2, r2)) => spec_run_chain(
                    chain@,
                    retrievers@,
                    view_table(old(data)@),
                    old(repeats)@,
                ) == Result::<(Seq<Option<SpecValue>>, Seq<Option<isize>>), BfpError>::Ok((d2, r2)),
                Result::Err(e) => spec_run_chain(
                    chain@,
                    retrievers@,
                    view_table(old(data)@),
                    old(repeats)@,
                ) == Result::<(Seq<Option<SpecValue>>, Seq<Option<isize>>), BfpError>::Err(e),
            }),
        decreases n - k,
    {
        proof {
            assert(chain@.skip(k as int)[0] == chain@[k as int]);
            assert(chain@.skip(k as int).skip(1) =~= chain@.skip(k + 1));
        }
        match chain[k].run(retrievers, data, repeats, ver) {
            Ok(()) => (),
            Err(e) => {
                return Err(e);
            },
        }
        k = k + 1;
    }
    Ok(())
}

} // verus!
