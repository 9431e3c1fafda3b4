use std::sync::Arc;

use vstd::prelude::*;

use crate::errors::BfpError;
use crate::types::bfp_type::{share_type, BfpType};
use crate::ordering::Ordering;
use crate::types::parseable_type::{
    lemma_cmp_value_antisym, spec_cmp_value, spec_eq_value, view_value, view_values,
    ParseableType, SpecValue,
};

verus! {

broadcast use
    vstd::seq::axiom_seq_index_decreases,
    vstd::std_specs::vec::axiom_vec_decreases_to_view,
    vstd::std_specs::vec::axiom_vec_index_decreases;

/// An ordered homogeneous list value: the elements together with the
/// declared element type they were decoded with.
#[derive(Debug)]
pub struct BfpList {
    pub ls: Vec<ParseableType>,
    pub data_type: Arc<BfpType>,
}

/// Mathematical model of a list value. The element type is carried as the
/// schema value itself: schemas are immutable and shared, never rebuilt.
pub struct SpecList {
    pub elems: Seq<SpecValue>,
    pub data_type: Arc<BfpType>,
}

/// Model of a list value.
pub open spec fn view_list(ls: BfpList) -> SpecList
    decreases ls,
{
    SpecList { elems: view_values(ls.ls@), data_type: ls.data_type }
}

impl View for BfpList {
    type V = SpecList;

    open spec fn view(&self) -> SpecList {
        view_list(*self)
    }
}

impl BfpList {
    /// Wraps already-decoded elements with their declared element type.
    pub fn new(ls: Vec<ParseableType>, data_type: Arc<BfpType>) -> (r: BfpList)
        ensures
            r@.elems == view_values(ls@),
            r@.data_type == data_type,
    {
        BfpList { ls, data_type }
    }

    /// Number of elements.
    pub fn len(&self) -> (n: usize)
        ensures
            n == self@.elems.len(),
    {
        self.ls.len()
    }
}

/// How many elements of a sequence are structurally equal to a value.
pub open spec fn spec_count_eq(elems: Seq<SpecValue>, v: SpecValue) -> int
    decreases elems.len(),
{
    if elems.len() == 0 {
        0
    } else {
        spec_count_eq(elems.drop_last(), v) + if spec_eq_value(elems.last(), v) {
            1int
        } else {
            0int
        }
    }
}

impl BfpList {
    /// A borrow of the element at `i`.
    pub fn get(&self, i: usize) -> (r: &ParseableType)
        requires
            i < self@.elems.len(),
        ensures
            view_value(*r) == self@.elems[i as int],
    {
        &self.ls[i]
    }

    /// Replaces the element at `i`. The new element must be of the list's
    /// declared element kind.
    pub fn set(&mut self, i: usize, val: ParseableType) -> (r: Result<(), BfpError>)
        requires
            i < old(self)@.elems.len(),
        ensures
            final(self)@.data_type == old(self)@.data_type,
            old(self).data_type.spec_accepts(val@) ==> r is Ok && final(self)@.elems == old(self)@.elems.update(i as int, val@),
            !old(self).data_type.spec_accepts(val@) ==> r == Err::<(), BfpError>(
                BfpError::TypeMismatch { field: i },
            ) && *final(self) == *old(self),
    {
        if !self.data_type.accepts(&val) {
            return Err(BfpError::TypeMismatch { field: i });
        }
        self.ls.set(i, val);
        proof {
            assert(view_values(self.ls@) =~= view_values(old(self).ls@).update(
                i as int,
                view_value(self.ls@[i as int]),
            ));
        }
        Ok(())
    }

    /// Appends a value, which must be of the list's declared element kind.
    pub fn append(&mut self, val: ParseableType) -> (r: Result<(), BfpError>)
        ensures
            final(self)@.data_type == old(self)@.data_type,
            old(self).data_type.spec_accepts(val@) ==> r is Ok && final(self)@.elems == old(self)@.elems.push(val@),
            !old(self).data_type.spec_accepts(val@) ==> r == Err::<(), BfpError>(
                BfpError::TypeMismatch { field: old(self)@.elems.len() as usize },
            ) && *final(self) == *old(self),
    {
        if !self.data_type.accepts(&val) {
            return Err(BfpError::TypeMismatch { field: self.ls.len() });
        }
        self.ls.push(val);
        proof {
            assert(view_values(self.ls@) =~= view_values(old(self).ls@).push(
                view_value(self.ls@[self.ls@.len() - 1]),
            ));
        }
        Ok(())
    }

    /// Appends every value of `vals` in order; all of them must be of the
    /// list's declared element kind, and on a mismatch nothing is
    /// appended.
    pub fn extend(&mut self, vals: Vec<ParseableType>) -> (r: Result<(), BfpError>)
        ensures
            final(self)@.data_type == old(self)@.data_type,
            (forall|i: int|
                0 <= i < vals@.len() ==> old(self).data_type.spec_accepts(
                    view_values(vals@)[i],
                )) ==> r is Ok && final(self)@.elems == old(self)@.elems + view_values(vals@),
            (exists|i: int|
                0 <= i < vals@.len() && !old(self).data_type.spec_accepts(view_values(vals@)[i]))
                ==> (r matches Err(e) && (e matches BfpError::TypeMismatch { field: _ })
                && *final(self) == *old(self)),
    {
        let mut k: usize = 0;
        let n = vals.len();
        while k < n
            invariant
                0 <= k <= n,
                n == vals@.len(),
                forall|i: int| 0 <= i < k ==> self.data_type.spec_accepts(view_values(vals@)[i]),
                *self == *old(self),
            decreases n - k,
        {
            if !self.data_type.accepts(&vals[k]) {
                proof {
                    assert(view_values(vals@)[k as int] == view_value(vals@[k as int]));
                }
                return Err(BfpError::TypeMismatch { field: k });
            }
            k = k + 1;
        }
        let mut k: usize = 0;
        while k < n
            invariant
                0 <= k <= n,
                n == vals@.len(),
                self.data_type == old(self).data_type,
                self.ls@.len() == old(self).ls@.len() + k,
                forall|j: int| 0 <= j < old(self).ls@.len() ==> #[trigger] self.ls@[j] == old(
                    self,
                ).ls@[j],
                forall|j: int|
                    0 <= j < k ==> view_value(#[trigger] self.ls@[old(self).ls@.len() + j])
                        == view_values(vals@)[j],
            decreases n - k,
        {
            let v = vals[k].duplicate();
            proof {
                assert(view_values(vals@)[k as int] == view_value(vals@[k as int]));
            }
            self.ls.push(v);
            k = k + 1;
        }
        proof {
            assert forall|i: int|
                0 <= i < self.ls@.len() implies view_values(self.ls@)[i] == (view_values(
                old(self).ls@,
            ) + view_values(vals@))[i] by {
                assert(view_values(self.ls@)[i] == view_value(self.ls@[i]));
                if i < old(self).ls@.len() {
                    assert(view_values(old(self).ls@)[i] == view_value(old(self).ls@[i]));
                } else {
                    let j = i - old(self).ls@.len();
                    assert(view_value(self.ls@[old(self).ls@.len() + j]) == view_values(
                        vals@,
                    )[j]);
                }
            }
            assert(view_values(self.ls@) =~= view_values(old(self).ls@) + view_values(vals@));
        }
        Ok(())
    }

    /// Inserts a value at a position counted from the front, or from the
    /// back when negative, clamped to the list's bounds. The value must be
    /// of the list's declared element kind.
    pub fn insert(&mut self, item: isize, val: ParseableType) -> (r: Result<(), BfpError>)
        requires
            old(self)@.elems.len() <= isize::MAX,
        ensures
            final(self)@.data_type == old(self)@.data_type,
            ({
                let len = old(self)@.elems.len() as int;
                let shifted: int = if item < 0 {
                    item + len
                } else {
                    item as int
                };
                let clamped: int = if shifted < 0 {
                    0
                } else if shifted > len {
                    len
                } else {
                    shifted
                };
                &&& old(self).data_type.spec_accepts(val@) ==> r is Ok && final(self)@.elems
                    == old(self)@.elems.insert(clamped, val@)
                &&& !old(self).data_type.spec_accepts(val@) ==> (r matches Err(e) && e == (
                BfpError::TypeMismatch { field: clamped as usize }) && *final(self) == *old(self))
            }),
    {
        let len = self.ls.len();
        let mut pos: isize = item;
        if pos < 0 {
            pos = pos + (len as isize);
        }
        let clamped: usize = if pos < 0 {
            0
        } else if (pos as usize) > len {
            len
        } else {
            pos as usize
        };
        if !self.data_type.accepts(&val) {
            return Err(BfpError::TypeMismatch { field: clamped });
        }
        let ghost vv = val@;
        self.ls.insert(clamped, val);
        proof {
            assert(view_values(self.ls@) =~= view_values(old(self).ls@).insert(
                clamped as int,
                vv,
            ));
        }
        Ok(())
    }

    /// Removes the first element structurally equal to `val`; fails when
    /// none is.
    pub fn remove(&mut self, val: &ParseableType) -> (r: Result<(), BfpError>)
        ensures
            final(self)@.data_type == old(self)@.data_type,
            (exists|i: int|
                0 <= i < old(self)@.elems.len() && spec_eq_value(
                    #[trigger] old(self)@.elems[i],
                    val@,
                )) ==> r is Ok && (exists|i: int|
                0 <= i < old(self)@.elems.len() && spec_eq_value(
                    #[trigger] old(self)@.elems[i],
                    val@,
                ) && (forall|j: int|
                    0 <= j < i ==> !spec_eq_value(#[trigger] old(self)@.elems[j], val@)) && final(self)@.elems == old(self)@.elems.remove(i)),
            !(exists|i: int|
                0 <= i < old(self)@.elems.len() && spec_eq_value(
                    #[trigger] old(self)@.elems[i],
                    val@,
                )) ==> r == Err::<(), BfpError>(BfpError::ValueOutOfRange { field: 0 }) && *final(self) == *old(self),
    {
        let n = self.ls.len();
        let mut k: usize = 0;
        while k < n
            invariant
                0 <= k <= n,
                n == self@.elems.len(),
                *self == *old(self),
                forall|j: int| 0 <= j < k ==> !spec_eq_value(#[trigger] self@.elems[j], val@),
            decreases n - k,
        {
            if self.ls[k].equals(val) {
                proof {
                    assert(view_values(self.ls@)[k as int] == view_value(self.ls@[k as int]));
                }
                self.ls.remove(k);
                proof {
                    assert(view_values(self.ls@) =~= view_values(old(self).ls@).remove(k as int));
                }
                return Ok(());
            }
            k = k + 1;
        }
        Err(BfpError::ValueOutOfRange { field: 0 })
    }

    /// Removes and returns the element at a position counted from the
    /// front, or from the back when negative; fails when out of range.
    pub fn pop(&mut self, item: isize) -> (r: Result<ParseableType, BfpError>)
        requires
            old(self)@.elems.len() <= isize::MAX,
        ensures
            final(self)@.data_type == old(self)@.data_type,
            ({
                let len = old(self)@.elems.len() as int;
                let shifted: int = if item < 0 {
                    item + len
                } else {
                    item as int
                };
                &&& (0 <= shifted < len) ==> (r matches Ok(v) && view_value(v) == old(self)@.elems[shifted] && final(self)@.elems == old(self)@.elems.remove(shifted))
                &&& !(0 <= shifted < len) ==> r == Err::<ParseableType, BfpError>(
                    BfpError::ValueOutOfRange { field: 0 },
                ) && *final(self) == *old(self)
            }),
    {
        let len = self.ls.len();
        let mut pos: isize = item;
        if pos < 0 {
            pos = pos + (len as isize);
        }
        if pos < 0 || (pos as usize) >= len {
            return Err(BfpError::ValueOutOfRange { field: 0 });
        }
        let out = self.ls.remove(pos as usize);
        proof {
            assert(view_values(self.ls@) =~= view_values(old(self).ls@).remove(pos as int));
        }
        Ok(out)
    }

    /// Removes every element.
    pub fn clear(&mut self)
        ensures
            final(self)@.data_type == old(self)@.data_type,
            final(self)@.elems == Seq::<SpecValue>::empty(),
    {
        self.ls.clear();
        proof {
            assert(view_values(self.ls@) =~= Seq::<SpecValue>::empty());
        }
    }

    /// The position of the first element structurally equal to `val`;
    /// fails when none is.
    pub fn index(&self, val: &ParseableType) -> (r: Result<usize, BfpError>)
        ensures
            (match r {
                Result::Ok(i) => 0 <= i < self@.elems.len() && spec_eq_value(
                    self@.elems[i as int],
                    val@,
                ) && (forall|j: int|
                    0 <= j < i ==> !spec_eq_value(#[trigger] self@.elems[j], val@)),
                Result::Err(e) => e == (BfpError::ValueOutOfRange { field: 0 }) && (forall|j: int|
                    0 <= j < self@.elems.len() ==> !spec_eq_value(
                        #[trigger] self@.elems[j],
                        val@,
                    )),
            }),
    {
        let n = self.ls.len();
        let mut k: usize = 0;
        while k < n
            invariant
                0 <= k <= n,
                n == self@.elems.len(),
                forall|j: int| 0 <= j < k ==> !spec_eq_value(#[trigger] self@.elems[j], val@),
            decreases n - k,
        {
            if self.ls[k].equals(val) {
                proof {
                    assert(view_values(self.ls@)[k as int] == view_value(self.ls@[k as int]));
                }
                return Ok(k);
            }
            k = k + 1;
        }
        Err(BfpError::ValueOutOfRange { field: 0 })
    }

    /// How many elements are structurally equal to `val`.
    pub fn count(&self, val: &ParseableType) -> (r: usize)
        ensures
            r == spec_count_eq(self@.elems, val@),
    {
        let n = self.ls.len();
        let mut k: usize = 0;
        let mut c: usize = 0;
        proof {
            assert(self@.elems.take(0) =~= Seq::<SpecValue>::empty());
        }
        while k < n
            invariant
                0 <= k <= n,
                n == self@.elems.len(),
                c <= k,
                c == spec_count_eq(self@.elems.take(k as int), val@),
            decreases n - k,
        {
            proof {
                assert(self@.elems.take(k + 1).drop_last() =~= self@.elems.take(k as int));
                assert(self@.elems.take(k + 1).last() == self@.elems[k as int]);
                assert(view_values(self.ls@)[k as int] == view_value(self.ls@[k as int]));
            }
            if self.ls[k].equals(val) {
                c = c + 1;
            }
            k = k + 1;
        }
        proof {
            assert(self@.elems.take(n as int) =~= self@.elems);
        }
        c
    }

    /// Reverses the element order in place.
    pub fn reverse(&mut self)
        ensures
            final(self)@.data_type == old(self)@.data_type,
            final(self)@.elems.len() == old(self)@.elems.len(),
            forall|i: int|
                0 <= i < old(self)@.elems.len() ==> final(self)@.elems[i] == old(self)@.elems[old(
                    self,
                )@.elems.len() - 1 - i],
    {
        let n = self.ls.len();
        let mut out: Vec<ParseableType> = Vec::new();
        let mut k: usize = 0;
        while k < n
            invariant
                0 <= k <= n,
                n == self.ls@.len(),
                *self == *old(self),
                out@.len() == k,
                forall|j: int|
                    0 <= j < k ==> view_value(#[trigger] out@[j]) == view_values(self.ls@)[n - 1
                        - j],
            decreases n - k,
        {
            let v = self.ls[n - 1 - k].duplicate();
            proof {
                assert(view_values(self.ls@)[n - 1 - k as int] == view_value(
                    self.ls@[n - 1 - k as int],
                ));
            }
            out.push(v);
            k = k + 1;
        }
        self.ls = out;
        proof {
            assert forall|i: int|
                0 <= i < old(self).ls@.len() implies view_values(self.ls@)[i] == view_values(
                old(self).ls@,
            )[old(self).ls@.len() - 1 - i] by {
                assert(view_values(self.ls@)[i] == view_value(self.ls@[i]));
            }
        }
    }
}

/// Whether a value sequence is sorted: no element orders strictly after
/// its successor, and every adjacent pair has a defined order.
pub open spec fn spec_sorted(elems: Seq<SpecValue>) -> bool {
    forall|i: int|
        0 <= i < elems.len() - 1 ==> ((#[trigger] spec_cmp_value(elems[i], elems[i + 1])) matches
            Some(o) && o != Ordering::Greater)
}

/// Whether a value occurs in a value sequence.
pub open spec fn spec_among(v: SpecValue, elems: Seq<SpecValue>) -> bool {
    exists|x: int| 0 <= x < elems.len() && v == elems[x]
}

/// The position a value sorts into: the first element that orders
/// strictly after it, or the end. Fails when a comparison made along the
/// way has no outcome.
fn find_insert_pos(out: &Vec<ParseableType>, v: &ParseableType) -> (r: Result<usize, BfpError>)
    ensures
        (match r {
            Result::Ok(p) => {
                &&& p <= out@.len()
                &&& forall|j: int|
                    0 <= j < p ==> ((#[trigger] spec_cmp_value(view_values(out@)[j], v@)) matches
                        Some(o) && o != Ordering::Greater)
                &&& p < out@.len() ==> spec_cmp_value(view_values(out@)[p as int], v@) == Some(
                    Ordering::Greater,
                )
            },
            Result::Err(e) => e == (BfpError::TypeMismatch { field: 0 }) && exists|j: int|
                0 <= j < out@.len() && spec_cmp_value(#[trigger] view_values(out@)[j], v@) is None,
        }),
{
    let m = out.len();
    let mut p: usize = 0;
    while p < m
        invariant
            0 <= p <= m,
            m == out@.len(),
            forall|j: int|
                0 <= j < p ==> ((#[trigger] spec_cmp_value(view_values(out@)[j], v@)) matches Some(
                    o,
                ) && o != Ordering::Greater),
        decreases m - p,
    {
        proof {
            assert(view_values(out@)[p as int] == view_value(out@[p as int]));
        }
        match out[p].cmp_value(v) {
            None => {
                return Err(BfpError::TypeMismatch { field: 0 });
            },
            Some(Ordering::Greater) => {
                return Ok(p);
            },
            Some(_) => {},
        }
        p = p + 1;
    }
    Ok(p)
}

impl BfpList {

    /// A list equal to this one, element by element, sharing the declared
    /// element type.
    #[verifier::loop_isolation(false)]
    pub fn copy(&self) -> (r: BfpList)
        ensures
            r@.elems == self@.elems,
            r@.data_type == self@.data_type,
    {
        let n = self.ls.len();
        let mut out: Vec<ParseableType> = Vec::new();
        let mut i: usize = 0;
        while i < n
            invariant
                0 <= i <= n,
                n == self.ls@.len(),
                out@.len() == i,
                forall|j: int|
                    0 <= j < i ==> view_value(#[trigger] out@[j]) == view_values(self.ls@)[j],
            decreases n - i,
        {
            let v = self.ls[i].duplicate();
            proof {
                assert(view_values(self.ls@)[i as int] == view_value(self.ls@[i as int]));
            }
            out.push(v);
            i = i + 1;
        }
        proof {
            assert forall|j: int|
                0 <= j < n implies view_values(out@)[j] == view_values(self.ls@)[j] by {
                assert(view_values(out@)[j] == view_value(out@[j]));
            }
            assert(view_values(out@) =~= view_values(self.ls@));
        }
        BfpList { ls: out, data_type: share_type(&self.data_type) }
    }

    /// Sorts the elements in place. Only a list of a totally ordered
    /// element kind sorts, and every comparison the sort makes must have
    /// an outcome; a list whose declared kind has a total order and whose
    /// elements all compare pairwise (as integers, non-NaN floats of one
    /// width, booleans, or byte blobs do) is promised to sort. On an
    /// error the list is unchanged.
    #[verifier::loop_isolation(false)]
    pub fn sort(&mut self) -> (r: Result<(), BfpError>)
        ensures
            final(self)@.data_type == old(self)@.data_type,
            r is Ok ==> spec_sorted(final(self)@.elems),
            r is Ok ==> final(self)@.elems.to_multiset() == old(self)@.elems.to_multiset(),
            r is Err ==> *final(self) == *old(self) && r == Err::<(), BfpError>(
                BfpError::TypeMismatch { field: 0 },
            ),
            !(*old(self).data_type).spec_is_ord() ==> r is Err,
            ((*old(self).data_type).spec_is_ord() && (forall|i: int, j: int|
                0 <= i < old(self)@.elems.len() && 0 <= j < old(self)@.elems.len()
                    ==> #[trigger] spec_cmp_value(old(self)@.elems[i], old(self)@.elems[j])
                    is Some)) ==> r is Ok,
    {
        broadcast use vstd::seq_lib::lemma_multiset_commutative;
        broadcast use vstd::seq_lib::group_to_multiset_ensures;

        if !self.data_type.is_ord() {
            return Err(BfpError::TypeMismatch { field: 0 });
        }
        let ghost elems = view_values(self.ls@);
        proof {
            assert(elems == old(self)@.elems);
        }
        let n = self.ls.len();
        let mut out: Vec<ParseableType> = Vec::new();
        let mut k: usize = 0;
        proof {
            assert(elems.take(0) =~= Seq::<SpecValue>::empty());
            assert(view_values(out@) =~= Seq::<SpecValue>::empty());
        }
        while k < n
            invariant
                0 <= k <= n,
                n == self.ls@.len(),
                *self == *old(self),
                elems == view_values(self.ls@),
                out@.len() == k,
                spec_sorted(view_values(out@)),
                view_values(out@).to_multiset() == elems.take(k as int).to_multiset(),
                forall|i: int|
                    0 <= i < out@.len() ==> spec_among(#[trigger] view_values(out@)[i], elems),
            decreases n - k,
        {
            let v = self.ls[k].duplicate();
            let ghost vv = v@;
            proof {
                assert(elems[k as int] == view_value(self.ls@[k as int]));
                assert(spec_among(vv, elems));
            }
            let p = match find_insert_pos(&out, &v) {
                Ok(p) => p,
                Err(e) => {
                    proof {
                        if (forall|i: int, j: int|
                            0 <= i < old(self)@.elems.len() && 0 <= j < old(self)@.elems.len()
                                ==> #[trigger] spec_cmp_value(
                                old(self)@.elems[i],
                                old(self)@.elems[j],
                            ) is Some) {
                            let j = choose|j: int|
                                0 <= j < out@.len() && spec_cmp_value(
                                    #[trigger] view_values(out@)[j],
                                    vv,
                                ) is None;
                            assert(spec_among(view_values(out@)[j], elems));
                            let x = choose|x: int|
                                0 <= x < elems.len() && view_values(out@)[j] == elems[x];
                            assert(view_values(out@)[j] == elems[x]);
                            assert(spec_cmp_value(old(self)@.elems[x], old(self)@.elems[k as int])
                                is Some);
                            assert(false);
                        }
                    }
                    return Err(e);
                },
            };
            let ghost pre = view_values(out@);
            out.insert(p, v);
            proof {
                assert(view_values(out@) =~= pre.take(p as int) + (seq![vv] + pre.skip(p as int)));
                assert(pre =~= pre.take(p as int) + pre.skip(p as int));
                assert(seq![vv] =~= Seq::<SpecValue>::empty().push(vv));
                assert(Seq::<SpecValue>::empty().to_multiset() =~= vstd::multiset::Multiset::<
                    SpecValue,
                >::empty());
                assert(view_values(out@).to_multiset() =~= pre.to_multiset().insert(vv));
                assert(elems.take(k + 1) =~= elems.take(k as int).push(vv));
                assert(elems.take(k + 1).to_multiset() =~= elems.take(
                    k as int,
                ).to_multiset().insert(vv));
                if (p as int) < pre.len() {
                    lemma_cmp_value_antisym(pre[p as int], vv);
                }
                assert forall|i: int|
                    0 <= i < view_values(out@).len() - 1 implies ((#[trigger] spec_cmp_value(
                    view_values(out@)[i],
                    view_values(out@)[i + 1],
                )) matches Some(o) && o != Ordering::Greater) by {
                    if i < p as int - 1 {
                        assert(view_values(out@)[i] == pre[i]);
                        assert(view_values(out@)[i + 1] == pre[i + 1]);
                        assert(spec_cmp_value(pre[i], pre[i + 1]) matches Some(o) && o
                            != Ordering::Greater);
                    } else if i == p as int - 1 {
                        assert(view_values(out@)[i] == pre[i]);
                        assert(view_values(out@)[i + 1] == vv);
                    } else if i == p as int {
                        assert(view_values(out@)[i] == vv);
                        assert(view_values(out@)[i + 1] == pre[i]);
                    } else {
                        assert(view_values(out@)[i] == pre[i - 1]);
                        assert(view_values(out@)[i + 1] == pre[i]);
                        let j = i - 1;
                        assert(spec_cmp_value(pre[j], pre[j + 1]) matches Some(o) && o
                            != Ordering::Greater);
                    }
                }
                assert forall|i: int|
                    0 <= i < view_values(out@).len() implies spec_among(
                    #[trigger] view_values(out@)[i],
                    elems,
                ) by {
                    if i == p as int {
                        assert(view_values(out@)[i] == vv);
                    } else if i < p as int {
                        assert(view_values(out@)[i] == pre[i]);
                        assert(spec_among(pre[i], elems));
                    } else {
                        assert(view_values(out@)[i] == pre[i - 1]);
                        assert(spec_among(pre[i - 1], elems));
                    }
                }
            }
            k = k + 1;
        }
        proof {
            assert(elems.take(n as int) =~= elems);
        }
        self.ls = out;
        Ok(())
    }
}

} // verus!
