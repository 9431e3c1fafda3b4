use vstd::prelude::*;

use crate::ordering::Ordering;

verus! {

/// A version: an ordered tuple of integers, compared lexicographically
/// component by component, with a shorter tuple that is a prefix of a longer
/// one ordering before it. Immutable once constructed. Used both as a field
/// applicability bound and as the resolved version of one parse.
#[derive(Debug)]
pub struct Version {
    ver: Vec<i32>,
}

impl Clone for Version {
    fn clone(&self) -> (v: Self)
        ensures
            v@ == self@,
    {
        Version { ver: self.ver.clone() }
    }
}

/// Lexicographic comparison of two component sequences.
pub open spec fn spec_cmp_components(a: Seq<i32>, b: Seq<i32>) -> Ordering
    decreases a.len() + b.len(),
{
    if a.len() == 0 && b.len() == 0 {
        Ordering::Equal
    } else if a.len() == 0 {
        Ordering::Less
    } else if b.len() == 0 {
        Ordering::Greater
    } else if a[0] < b[0] {
        Ordering::Less
    } else if a[0] > b[0] {
        Ordering::Greater
    } else {
        spec_cmp_components(a.skip(1), b.skip(1))
    }
}

pub open spec fn spec_le_components(a: Seq<i32>, b: Seq<i32>) -> bool {
    spec_cmp_components(a, b) != Ordering::Greater
}

impl View for Version {
    type V = Seq<i32>;

    closed spec fn view(&self) -> Seq<i32> {
        self.ver@
    }
}

impl Version {
    /// Wraps the given components, most significant first.
    pub fn new(ver: Vec<i32>) -> (v: Version)
        ensures
            v@ == ver@,
    {
        Version { ver }
    }

    /// The components, most significant first.
    pub fn components(&self) -> (c: &Vec<i32>)
        ensures
            c@ == self@,
    {
        &self.ver
    }

    /// Lexicographic comparison against another version.
    pub fn cmp(&self, other: &Version) -> (r: Ordering)
        ensures
            r == spec_cmp_components(self@, other@),
    {
        let a = &self.ver;
        let b = &other.ver;
        let mut i: usize = 0;
        proof {
            assert(a@.skip(0) =~= a@);
            assert(b@.skip(0) =~= b@);
        }
        loop
            invariant
                a@ == self@,
                b@ == other@,
                0 <= i <= a@.len(),
                0 <= i <= b@.len(),
                spec_cmp_components(a@, b@) == spec_cmp_components(a@.skip(i as int), b@.skip(i as int)),
            decreases a@.len() - i,
        {
            if i >= a.len() && i >= b.len() {
                proof {
                    assert(a@.skip(i as int).len() == 0);
                    assert(b@.skip(i as int).len() == 0);
                }
                return Ordering::Equal;
            }
            if i >= a.len() {
                proof {
                    assert(a@.skip(i as int).len() == 0);
                    assert(b@.skip(i as int).len() > 0);
                }
                return Ordering::Less;
            }
            if i >= b.len() {
                proof {
                    assert(b@.skip(i as int).len() == 0);
                    assert(a@.skip(i as int).len() > 0);
                }
                return Ordering::Greater;
            }
            proof {
                assert(a@.skip(i as int)[0] == a@[i as int]);
                assert(b@.skip(i as int)[0] == b@[i as int]);
            }
            if a[i] < b[i] {
                return Ordering::Less;
            }
            if a[i] > b[i] {
                return Ordering::Greater;
            }
            proof {
                assert(a@.skip(i as int).skip(1) =~= a@.skip(i + 1));
                assert(b@.skip(i as int).skip(1) =~= b@.skip(i + 1));
            }
            i = i + 1;
        }
    }

    /// Whether `self` orders at or before `other`.
    pub fn le(&self, other: &Version) -> (r: bool)
        ensures
            r == spec_le_components(self@, other@),
    {
        match self.cmp(other) {
            Ordering::Greater => false,
            _ => true,
        }
    }
}

/// Lexicographic order on versions is transitive: whenever `a <= b` and
/// `b <= c`, also `a <= c`.
pub proof fn lemma_version_le_transitive(a: Seq<i32>, b: Seq<i32>, c: Seq<i32>)
    requires
        spec_le_components(a, b),
        spec_le_components(b, c),
    ensures
        spec_le_components(a, c),
    decreases a.len() + b.len() + c.len(),
{
    if a.len() == 0 || b.len() == 0 || c.len() == 0 {
    } else {
        if a[0] == b[0] && b[0] == c[0] {
            lemma_version_le_transitive(a.skip(1), b.skip(1), c.skip(1));
        }
    }
}

} // verus!
