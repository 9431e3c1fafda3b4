use vstd::prelude::*;

verus! {

/// Outcome of comparing two totally ordered values. Conditional combinators
/// carry an explicit set of these outcomes, so that all relational operators
/// (and their negations) collapse to the same evaluator.
#[derive(Debug, Clone, Copy, PartialEq, Eq, Structural)]
pub enum Ordering {
    Less,
    Equal,
    Greater,
}

/// Whether a sequence of outcomes contains the given outcome.
pub open spec fn spec_contains_ord(ords: Seq<Ordering>, o: Ordering) -> bool {
    exists|i: int| 0 <= i < ords.len() && ords[i] == o
}

/// Membership test for an outcome set, as stored in a conditional combinator.
pub fn contains_ord(ords: &Vec<Ordering>, o: Ordering) -> (r: bool)
    ensures
        r == spec_contains_ord(ords@, o),
{
    let mut i: usize = 0;
    while i < ords.len()
        invariant
            0 <= i <= ords@.len(),
            forall|j: int| 0 <= j < i ==> ords@[j] != o,
        decreases ords@.len() - i,
    {
        if ords[i] == o {
            return true;
        }
        i = i + 1;
    }
    false
}

} // verus!
