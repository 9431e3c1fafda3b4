use vstd::prelude::*;

use crate::combinators::combinator_type::{run_chain, spec_run_chain, CombinatorType};
use crate::errors::BfpError;
use crate::types::parseable_type::{view_table, ParseableType, SpecValue};
use std::sync::Arc;

use crate::types::bfp_type::BfpType;
use crate::types::byte_stream::ByteStream;
use crate::types::structure::{spec_decode_value, spec_rets_wf, spec_type_wf};
use crate::types::version::{spec_le_components, Version};

verus! {

broadcast use
    vstd::seq::axiom_seq_index_decreases,
    vstd::std_specs::vec::axiom_vec_decreases_to_view,
    vstd::std_specs::vec::axiom_vec_index_decreases;

/// How one field behaves in one particular parse, derived from the
/// repeat-count table and the field's nominal repeat:
/// absent (no value at all), a single scalar value, or a list.
#[derive(Debug, Clone, Copy, PartialEq, Eq, Structural)]
pub enum RetState {
    Absent,
    Value,
    List,
}

/// The static schema descriptor of one record field: its wire type, the
/// version range in which the field exists, its nominal repeat count, the
/// "remaining bytes are compressed" flag, the combinator chains to run
/// after reading and after writing, a display name, and the slot index the
/// owning schema assigned to it.
///
/// A nominal repeat of `-1` means the field may be wholly absent, `1` means
/// exactly one scalar value, anything else a list of that many elements.
/// Immutable after schema construction except for the index assignment.
#[derive(Debug)]
pub struct Retriever {
    pub data_type: Arc<BfpType>,
    pub min_ver: Version,
    pub max_ver: Version,
    pub repeat: isize,
    pub remaining_compressed: bool,
    pub on_read: Vec<CombinatorType>,
    pub on_write: Vec<CombinatorType>,
    pub name: String,
    pub idx: usize,
}

impl Retriever {
    /// An ordered version range, over a well-formed wire type (each
    /// nested record schema is itself well formed).
    pub open spec fn wf(&self) -> bool
        decreases *self, 0nat,
    {
        spec_le_components(self.min_ver@, self.max_ver@) && spec_type_wf(*self.data_type)
    }

    /// Well-formedness of a descriptor standing at slot `i` of a schema.
    pub open spec fn wf_at(&self, i: int) -> bool
        decreases *self, 1nat,
    {
        self.wf() && self.idx == i
    }

    /// The same descriptor with the given slot index assigned.
    pub open spec fn with_idx_spec(&self, idx: usize) -> Retriever {
        Retriever { idx, ..*self }
    }

    /// A new descriptor, not yet assigned to a slot.
    pub fn new(
        data_type: Arc<BfpType>,
        min_ver: Version,
        max_ver: Version,
        repeat: isize,
        remaining_compressed: bool,
        on_read: Vec<CombinatorType>,
        on_write: Vec<CombinatorType>,
        name: String,
    ) -> (r: Retriever)
        requires
            spec_le_components(min_ver@, max_ver@),
            spec_type_wf(*data_type),
        ensures
            r.wf(),
            r == (Retriever {
                data_type,
                min_ver,
                max_ver,
                repeat,
                remaining_compressed,
                on_read,
                on_write,
                name,
                idx: 0,
            }),
    {
        Retriever {
            data_type,
            min_ver,
            max_ver,
            repeat,
            remaining_compressed,
            on_read,
            on_write,
            name,
            idx: 0,
        }
    }

    /// Whether the resolved version `ver` lies in this field's range.
    pub open spec fn spec_supported(&self, ver: Seq<i32>) -> bool {
        spec_le_components(self.min_ver@, ver) && spec_le_components(ver, self.max_ver@)
    }

    /// Whether the resolved version lies in this field's range.
    pub fn supported(&self, ver: &Version) -> (r: bool)
        ensures
            r == self.spec_supported(ver@),
    {
        self.min_ver.le(ver) && ver.le(&self.max_ver)
    }

    /// The field state implied by the repeat-count table: any override
    /// makes the field a list; otherwise the nominal repeat decides.
    pub open spec fn spec_state(&self, repeats: Seq<Option<isize>>) -> RetState {
        match repeats[self.idx as int] {
            Option::Some(_) => RetState::List,
            Option::None => if self.repeat == -1 {
                RetState::Absent
            } else if self.repeat == 1 {
                RetState::Value
            } else {
                RetState::List
            },
        }
    }

    /// The field state implied by the repeat-count table.
    pub fn state(&self, repeats: &Vec<Option<isize>>) -> (r: RetState)
        requires
            self.idx < repeats@.len(),
        ensures
            r == self.spec_state(repeats@),
    {
        match repeats[self.idx] {
            Some(_) => RetState::List,
            None => {
                if self.repeat == -1 {
                    RetState::Absent
                } else if self.repeat == 1 {
                    RetState::Value
                } else {
                    RetState::List
                }
            },
        }
    }

    /// The effective repeat count: the table's override if a combinator set
    /// one for this parse, else the nominal repeat.
    pub open spec fn spec_repeat(&self, repeats: Seq<Option<isize>>) -> isize {
        match repeats[self.idx as int] {
            Option::Some(val) => val,
            Option::None => self.repeat,
        }
    }

    /// The effective repeat count for this parse.
    pub fn repeat(&self, repeats: &Vec<Option<isize>>) -> (r: isize)
        requires
            self.idx < repeats@.len(),
        ensures
            r == self.spec_repeat(repeats@),
    {
        match repeats[self.idx] {
            Some(val) => val,
            None => self.repeat,
        }
    }


    /// Decodes one value of this field's wire type from the stream.
    pub fn from_stream(&self, stream: &mut ByteStream, ver: &Version) -> (r: Result<
        ParseableType,
        BfpError,
    >)
        requires
            self.wf(),
            old(stream)@.wf(),
        ensures
            final(stream)@.wf(),
            final(stream)@.bytes == old(stream)@.bytes,
            (match spec_decode_value(*self.data_type, ver@, old(stream)@) {
                Result::Ok((v, s2)) => r matches Ok(pv) && pv@ == v && final(stream)@ == s2,
                Result::Err(e) => r == Result::<ParseableType, BfpError>::Err(e),
            }),
        decreases *self, 0nat,
    {
        self.data_type.from_stream(stream, ver)
    }

    /// Runs this field's post-read combinator chain on the tables of one
    /// in-flight parse, aborting at the first error.
    pub fn call_on_reads(
        &self,
        retrievers: &Vec<Retriever>,
        data: &mut Vec<Option<ParseableType>>,
        repeats: &mut Vec<Option<isize>>,
        ver: &Version,
    ) -> (r: Result<(), BfpError>)
        requires
            spec_rets_wf(retrievers@),
            old(data)@.len() == retrievers@.len(),
            old(repeats)@.len() == retrievers@.len(),
        ensures
            final(data)@.len() == old(data)@.len(),
            final(repeats)@.len() == old(repeats)@.len(),
            (match spec_run_chain(self.on_read@, retrievers@, view_table(old(data)@), old(repeats)@) {
                Result::Ok((d2, r2)) => r is Ok && view_table(final(data)@) == d2
                    && final(repeats)@ == r2,
                Result::Err(e) => r == Result::<(), BfpError>::Err(e),
            }),
    {
        run_chain(&self.on_read, retrievers, data, repeats, ver)
    }

    /// Runs this field's post-write combinator chain on the tables of one
    /// in-flight parse, aborting at the first error.
    pub fn call_on_writes(
        &self,
        retrievers: &Vec<Retriever>,
        data: &mut Vec<Option<ParseableType>>,
        repeats: &mut Vec<Option<isize>>,
        ver: &Version,
    ) -> (r: Result<(), BfpError>)
        requires
            spec_rets_wf(retrievers@),
            old(data)@.len() == retrievers@.len(),
            old(repeats)@.len() == retrievers@.len(),
        ensures
            final(data)@.len() == old(data)@.len(),
            final(repeats)@.len() == old(repeats)@.len(),
            (match spec_run_chain(self.on_write@, retrievers@, view_table(old(data)@), old(repeats)@) {
                Result::Ok((d2, r2)) => r is Ok && view_table(final(data)@) == d2
                    && final(repeats)@ == r2,
                Result::Err(e) => r == Result::<(), BfpError>::Err(e),
            }),
    {
        run_chain(&self.on_write, retrievers, data, repeats, ver)
    }
}

} // verus!
