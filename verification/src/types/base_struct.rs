use vstd::prelude::*;

use crate::types::parseable_type::{
    spec_eq_entry, spec_eq_tables, view_table, ParseableType, SpecValue,
};
use crate::types::version::Version;

verus! {

broadcast use
    vstd::seq::axiom_seq_index_decreases,
    vstd::std_specs::vec::axiom_vec_decreases_to_view,
    vstd::std_specs::vec::axiom_vec_index_decreases;

/// One parsed record: the resolved version plus the per-parse field-value
/// table and repeat-count table, both indexed by the field's slot index.
/// `None` in the value table means "not yet parsed"; `None` in the repeat
/// table means "use the field's nominal repeat".
#[derive(Debug)]
pub struct BaseStruct {
    pub ver: Version,
    pub data: Vec<Option<ParseableType>>,
    pub repeats: Vec<Option<isize>>,
}

/// Mathematical model of a parsed record.
pub struct SpecRecord {
    pub ver: Seq<i32>,
    pub data: Seq<Option<SpecValue>>,
    pub repeats: Seq<Option<isize>>,
}

/// Model of a parsed record.
pub open spec fn view_record(r: BaseStruct) -> SpecRecord
    decreases r,
{
    SpecRecord { ver: r.ver@, data: view_table(r.data@), repeats: r.repeats@ }
}

impl View for BaseStruct {
    type V = SpecRecord;

    open spec fn view(&self) -> SpecRecord {
        view_record(*self)
    }
}

impl BaseStruct {
    /// Wraps a resolved version and the two tables of one finished parse.
    pub fn new(ver: Version, data: Vec<Option<ParseableType>>, repeats: Vec<Option<isize>>) -> (r: BaseStruct)
        ensures
            r@.ver == ver@,
            r@.data == view_table(data@),
            r@.repeats == repeats@,
    {
        BaseStruct { ver, data, repeats }
    }

    /// Structural equality against another parsed record: the two value
    /// tables agree slot by slot. The version and the repeat table do not
    /// take part.
    #[verifier::loop_isolation(false)]
    pub fn equals(&self, other: &BaseStruct) -> (r: bool)
        ensures
            r == spec_eq_tables(self@.data, other@.data),
    {
        if self.data.len() != other.data.len() {
            return false;
        }
        let n = self.data.len();
        let mut i: usize = 0;
        while i < n
            invariant
                0 <= i <= n,
                n == self.data@.len() == other.data@.len(),
                forall|j: int|
                    0 <= j < i ==> spec_eq_entry(
                        #[trigger] view_table(self.data@)[j],
                        view_table(other.data@)[j],
                    ),
            decreases n - i,
        {
            let same = match (&self.data[i], &other.data[i]) {
                (Some(a), Some(b)) => a.equals(b),
                (None, None) => true,
                _ => false,
            };
            if !same {
                proof {
                    assert(!spec_eq_entry(
                        view_table(self.data@)[i as int],
                        view_table(other.data@)[i as int],
                    ));
                }
                return false;
            }
            i = i + 1;
        }
        proof {
            assert(spec_eq_tables(view_table(self.data@), view_table(other.data@)));
        }
        true
    }
}


} // verus!
