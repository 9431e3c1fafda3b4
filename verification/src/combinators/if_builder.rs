use std::sync::Arc;

use vstd::prelude::*;

use crate::combinators::combinator_type::CombinatorType;
use crate::combinators::if_check::IfCheck;
use crate::combinators::if_cmp_from::IfCmpFrom;
use crate::combinators::if_cmp_len_from::IfCmpLenFrom;
use crate::combinators::if_cmp_len_to::IfCmpLenTo;
use crate::combinators::if_cmp_to::IfCmpTo;
use crate::errors::BfpError;
use crate::ordering::{spec_contains_ord, Ordering};
use crate::retrievers::retriever::Retriever;
use crate::types::bfp_type::{share_type, BfpType};
use crate::types::parseable_type::{spec_as_isize, ParseableType};

verus! {

/// How far a comparison builder has progressed: it starts with only a
/// target field, and one relational call gives it either another field or
/// a literal as the right-hand operand.
#[derive(Debug, Clone, Copy, PartialEq, Eq, Structural)]
pub enum BuilderState {
    HasTarget,
    HasSource,
    HasSourceConst,
}

/// The right-hand operand of a relational call: another field, or a
/// literal value. A closed two-way choice made explicit at the call site.
#[derive(Debug)]
pub enum Operand {
    Field(usize),
    Lit(ParseableType),
}

/// Builds one conditional combinator from a target field, at most one
/// relational call, and a nested combinator. `not` complements the
/// requested outcome set at the relational call; `len` compares the
/// target's list length instead of its value. A second relational call on
/// the same builder is rejected: nest a fresh conditional instead.
#[derive(Debug)]
pub struct IfBuilder {
    pub target: usize,
    pub target_data_type: Arc<BfpType>,
    pub source: Option<usize>,
    pub source_const: Option<ParseableType>,
    pub ord: Option<Vec<Ordering>>,
    pub state: BuilderState,
    pub not: bool,
    pub len: bool,
}

impl IfBuilder {
    /// After a successful relational call the builder holds exactly the
    /// operands its state promises.
    pub open spec fn wf(&self) -> bool {
        match self.state {
            BuilderState::HasTarget => true,
            BuilderState::HasSource => self.source is Some && self.ord is Some,
            BuilderState::HasSourceConst => self.ord is Some && (if self.len {
                self.source is Some
            } else {
                self.source_const is Some
            }),
        }
    }

    /// Records a field as the right-hand operand.
    pub fn cmp_ret(&mut self, ret: &Retriever, ord: Vec<Ordering>)
        ensures
            *final(self) == (IfBuilder {
                source: Some(ret.idx),
                ord: Some(ord),
                state: BuilderState::HasSource,
                ..*old(self)
            }),
    {
        self.source = Some(ret.idx);
        self.ord = Some(ord);
        self.state = BuilderState::HasSource;
    }

    /// Records a literal as the right-hand operand. In length mode the
    /// literal must be a non-negative integer count; otherwise it must be
    /// a value of the target's declared type.
    pub fn cmp_fix(&mut self, source: ParseableType, ord: Vec<Ordering>) -> (r: Result<
        (),
        BfpError,
    >)
        ensures
            old(self).len ==> match spec_as_isize(source@) {
                Some(n) => if n < 0 {
                    r == Err::<(), BfpError>(BfpError::ValueOutOfRange { field: old(self).target })
                        && *final(self) == *old(self)
                } else {
                    r is Ok && *final(self) == (IfBuilder {
                        source: Some(n as usize),
                        ord: Some(ord),
                        state: BuilderState::HasSourceConst,
                        ..*old(self)
                    })
                },
                None => r == Err::<(), BfpError>(BfpError::TypeMismatch { field: old(self).target })
                    && *final(self) == *old(self),
            },
            !old(self).len ==> if old(self).target_data_type.spec_accepts(source@) {
                r is Ok && *final(self) == (IfBuilder {
                    source_const: Some(source),
                    ord: Some(ord),
                    state: BuilderState::HasSourceConst,
                    ..*old(self)
                })
            } else {
                r == Err::<(), BfpError>(BfpError::TypeMismatch { field: old(self).target })
                    && *final(self) == *old(self)
            },
    {
        if self.len {
            let n = match source.to_isize() {
                Some(n) => n,
                None => {
                    return Err(BfpError::TypeMismatch { field: self.target });
                },
            };
            if n < 0 {
                return Err(BfpError::ValueOutOfRange { field: self.target });
            }
            self.source = Some(n as usize);
        } else {
            if !self.target_data_type.accepts(&source) {
                return Err(BfpError::TypeMismatch { field: self.target });
            }
            self.source_const = Some(source);
        }
        self.ord = Some(ord);
        self.state = BuilderState::HasSourceConst;
        Ok(())
    }

    /// One relational call: records the operand, rejecting a second call
    /// on the same builder.
    pub fn cmp(&mut self, source: Operand, ord: Vec<Ordering>) -> (r: Result<(), BfpError>)
        ensures
            old(self).state != BuilderState::HasTarget ==> r == Err::<(), BfpError>(
                BfpError::TypeMismatch { field: old(self).target },
            ) && *final(self) == *old(self),
            old(self).wf() ==> final(self).wf(),
            (old(self).state == BuilderState::HasTarget && r is Ok) ==> final(self).wf()
                && final(self).ord == Some(ord) && final(self).state != BuilderState::HasTarget
                && final(self).not == old(self).not && final(self).len == old(self).len
                && final(self).target == old(self).target,
            old(self).state == BuilderState::HasTarget ==> (source matches Operand::Field(idx)
                ==> (r is Ok && *final(self) == (IfBuilder {
                    source: Some(idx),
                    ord: Some(ord),
                    state: BuilderState::HasSource,
                    ..*old(self)
                }))),
            old(self).state == BuilderState::HasTarget && !old(self).len ==> (source matches
                Operand::Lit(v) ==> (old(self).target_data_type.spec_accepts(v@) ==> (r is Ok
                && *final(self) == (IfBuilder {
                    source_const: Some(v),
                    ord: Some(ord),
                    state: BuilderState::HasSourceConst,
                    ..*old(self)
                })))),
            old(self).state == BuilderState::HasTarget && old(self).len ==> (source matches
                Operand::Lit(v) ==> (spec_as_isize(v@) matches Some(n) ==> (n >= 0 ==> (r is Ok
                && *final(self) == (IfBuilder {
                    source: Some(n as usize),
                    ord: Some(ord),
                    state: BuilderState::HasSourceConst,
                    ..*old(self)
                }))))),
    {
        if !matches!(self.state, BuilderState::HasTarget) {
            return Err(BfpError::TypeMismatch { field: self.target });
        }
        match source {
            Operand::Field(idx) => {
                self.source = Some(idx);
                self.ord = Some(ord);
                self.state = BuilderState::HasSource;
                Ok(())
            },
            Operand::Lit(v) => self.cmp_fix(v, ord),
        }
    }

    /// Finalizes the builder into the concrete conditional combinator
    /// chosen by its state, length mode and operand kind, wrapping the
    /// given nested combinator.
    pub fn and_then(self, com: CombinatorType) -> (r: CombinatorType)
        requires
            self.wf(),
        ensures
            self.state == BuilderState::HasTarget ==> r == CombinatorType::IfCheck(IfCheck {
                source: self.target,
                com: Box::new(com),
            }),
            self.state == BuilderState::HasSource && self.len ==> r == CombinatorType::IfCmpLenFrom(
                IfCmpLenFrom {
                    target: self.target,
                    source: self.source->0,
                    ord: self.ord->0,
                    com: Box::new(com),
                },
            ),
            self.state == BuilderState::HasSource && !self.len ==> r == CombinatorType::IfCmpFrom(
                IfCmpFrom {
                    target: self.target,
                    source: self.source->0,
                    ord: self.ord->0,
                    com: Box::new(com),
                },
            ),
            self.state == BuilderState::HasSourceConst && self.len ==> r
                == CombinatorType::IfCmpLenTo(
                IfCmpLenTo {
                    target: self.target,
                    source: self.source->0,
                    ord: self.ord->0,
                    com: Box::new(com),
                },
            ),
            self.state == BuilderState::HasSourceConst && !self.len ==> r == CombinatorType::IfCmpTo(
                IfCmpTo {
                    target: self.target,
                    source: self.source_const->0,
                    ord: self.ord->0,
                    com: Box::new(com),
                },
            ),
    {
        match self.state {
            BuilderState::HasTarget => CombinatorType::IfCheck(IfCheck::new(self.target, com)),
            BuilderState::HasSource => {
                let source = match self.source {
                    Some(s) => s,
                    None => 0,
                };
                let ord = match self.ord {
                    Some(o) => o,
                    None => Vec::new(),
                };
                if self.len {
                    CombinatorType::IfCmpLenFrom(IfCmpLenFrom::new(self.target, source, ord, com))
                } else {
                    CombinatorType::IfCmpFrom(IfCmpFrom::new(self.target, source, ord, com))
                }
            },
            BuilderState::HasSourceConst => {
                if self.len {
                    let source = match self.source {
                        Some(s) => s,
                        None => 0,
                    };
                    let ord = match self.ord {
                        Some(o) => o,
                        None => Vec::new(),
                    };
                    CombinatorType::IfCmpLenTo(IfCmpLenTo::new(self.target, source, ord, com))
                } else {
                    let source_const = match self.source_const {
                        Some(s) => s,
                        None => ParseableType::Absent,
                    };
                    let ord = match self.ord {
                        Some(o) => o,
                        None => Vec::new(),
                    };
                    CombinatorType::IfCmpTo(IfCmpTo::new(self.target, source_const, ord, com))
                }
            },
        }
    }

    /// `target == rhs`, or its complement `{Less, Greater}` when negated.
    pub fn eq(self, source: Operand) -> (r: Result<IfBuilder, BfpError>)
        ensures
            r matches Ok(b) ==> b.ord matches Some(o) && (if self.not {
                o@ == seq![Ordering::Less, Ordering::Greater]
            } else {
                o@ == seq![Ordering::Equal]
            }),
            r matches Ok(b) ==> (self.wf() ==> b.wf()) && (self.state == BuilderState::HasTarget
                ==> b.wf()),
            self.state != BuilderState::HasTarget ==> r == Err::<IfBuilder, BfpError>(
                BfpError::TypeMismatch { field: self.target },
            ),
            self.state == BuilderState::HasTarget ==> (source matches Operand::Field(idx) ==> (r
                matches Ok(b) && b.source == Some(idx) && b.state == BuilderState::HasSource
                && b.target == self.target && b.len == self.len && b.not == self.not)),
    {
        let mut this = self;
        let ord: Vec<Ordering> = if this.not {
            vec![Ordering::Less, Ordering::Greater]
        } else {
            vec![Ordering::Equal]
        };
        match this.cmp(source, ord) {
            Ok(()) => Ok(this),
            Err(e) => Err(e),
        }
    }

    /// `target != rhs`, or its complement `{Equal}` when negated.
    pub fn neq(self, source: Operand) -> (r: Result<IfBuilder, BfpError>)
        ensures
            r matches Ok(b) ==> b.ord matches Some(o) && (if self.not {
                o@ == seq![Ordering::Equal]
            } else {
                o@ == seq![Ordering::Less, Ordering::Greater]
            }),
            r matches Ok(b) ==> (self.wf() ==> b.wf()) && (self.state == BuilderState::HasTarget
                ==> b.wf()),
            self.state != BuilderState::HasTarget ==> r == Err::<IfBuilder, BfpError>(
                BfpError::TypeMismatch { field: self.target },
            ),
            self.state == BuilderState::HasTarget ==> (source matches Operand::Field(idx) ==> (r
                matches Ok(b) && b.source == Some(idx) && b.state == BuilderState::HasSource
                && b.target == self.target && b.len == self.len && b.not == self.not)),
    {
        let mut this = self;
        let ord: Vec<Ordering> = if this.not {
            vec![Ordering::Equal]
        } else {
            vec![Ordering::Less, Ordering::Greater]
        };
        match this.cmp(source, ord) {
            Ok(()) => Ok(this),
            Err(e) => Err(e),
        }
    }

    /// `target > rhs`, or its complement `{Less, Equal}` when negated.
    pub fn gt(self, source: Operand) -> (r: Result<IfBuilder, BfpError>)
        ensures
            r matches Ok(b) ==> b.ord matches Some(o) && (if self.not {
                o@ == seq![Ordering::Less, Ordering::Equal]
            } else {
                o@ == seq![Ordering::Greater]
            }),
            r matches Ok(b) ==> (self.wf() ==> b.wf()) && (self.state == BuilderState::HasTarget
                ==> b.wf()),
            self.state != BuilderState::HasTarget ==> r == Err::<IfBuilder, BfpError>(
                BfpError::TypeMismatch { field: self.target },
            ),
            self.state == BuilderState::HasTarget ==> (source matches Operand::Field(idx) ==> (r
                matches Ok(b) && b.source == Some(idx) && b.state == BuilderState::HasSource
                && b.target == self.target && b.len == self.len && b.not == self.not)),
    {
        let mut this = self;
        let ord: Vec<Ordering> = if this.not {
            vec![Ordering::Less, Ordering::Equal]
        } else {
            vec![Ordering::Greater]
        };
        match this.cmp(source, ord) {
            Ok(()) => Ok(this),
            Err(e) => Err(e),
        }
    }

    /// `target >= rhs`, or its complement `{Less}` when negated.
    pub fn geq(self, source: Operand) -> (r: Result<IfBuilder, BfpError>)
        ensures
            r matches Ok(b) ==> b.ord matches Some(o) && (if self.not {
                o@ == seq![Ordering::Less]
            } else {
                o@ == seq![Ordering::Greater, Ordering::Equal]
            }),
            r matches Ok(b) ==> (self.wf() ==> b.wf()) && (self.state == BuilderState::HasTarget
                ==> b.wf()),
            self.state != BuilderState::HasTarget ==> r == Err::<IfBuilder, BfpError>(
                BfpError::TypeMismatch { field: self.target },
            ),
            self.state == BuilderState::HasTarget ==> (source matches Operand::Field(idx) ==> (r
                matches Ok(b) && b.source == Some(idx) && b.state == BuilderState::HasSource
                && b.target == self.target && b.len == self.len && b.not == self.not)),
    {
        let mut this = self;
        let ord: Vec<Ordering> = if this.not {
            vec![Ordering::Less]
        } else {
            vec![Ordering::Greater, Ordering::Equal]
        };
        match this.cmp(source, ord) {
            Ok(()) => Ok(this),
            Err(e) => Err(e),
        }
    }

    /// `target < rhs`, or its complement `{Greater, Equal}` when negated.
    pub fn lt(self, source: Operand) -> (r: Result<IfBuilder, BfpError>)
        ensures
            r matches Ok(b) ==> b.ord matches Some(o) && (if self.not {
                o@ == seq![Ordering::Greater, Ordering::Equal]
            } else {
                o@ == seq![Ordering::Less]
            }),
            r matches Ok(b) ==> (self.wf() ==> b.wf()) && (self.state == BuilderState::HasTarget
                ==> b.wf()),
            self.state != BuilderState::HasTarget ==> r == Err::<IfBuilder, BfpError>(
                BfpError::TypeMismatch { field: self.target },
            ),
            self.state == BuilderState::HasTarget ==> (source matches Operand::Field(idx) ==> (r
                matches Ok(b) && b.source == Some(idx) && b.state == BuilderState::HasSource
                && b.target == self.target && b.len == self.len && b.not == self.not)),
    {
        let mut this = self;
        let ord: Vec<Ordering> = if this.not {
            vec![Ordering::Greater, Ordering::Equal]
        } else {
            vec![Ordering::Less]
        };
        match this.cmp(source, ord) {
            Ok(()) => Ok(this),
            Err(e) => Err(e),
        }
    }

    /// `target <= rhs`, or its complement `{Greater}` when negated.
    pub fn leq(self, source: Operand) -> (r: Result<IfBuilder, BfpError>)
        ensures
            r matches Ok(b) ==> b.ord matches Some(o) && (if self.not {
                o@ == seq![Ordering::Greater]
            } else {
                o@ == seq![Ordering::Less, Ordering::Equal]
            }),
            r matches Ok(b) ==> (self.wf() ==> b.wf()) && (self.state == BuilderState::HasTarget
                ==> b.wf()),
            self.state != BuilderState::HasTarget ==> r == Err::<IfBuilder, BfpError>(
                BfpError::TypeMismatch { field: self.target },
            ),
            self.state == BuilderState::HasTarget ==> (source matches Operand::Field(idx) ==> (r
                matches Ok(b) && b.source == Some(idx) && b.state == BuilderState::HasSource
                && b.target == self.target && b.len == self.len && b.not == self.not)),
    {
        let mut this = self;
        let ord: Vec<Ordering> = if this.not {
            vec![Ordering::Greater]
        } else {
            vec![Ordering::Less, Ordering::Equal]
        };
        match this.cmp(source, ord) {
            Ok(()) => Ok(this),
            Err(e) => Err(e),
        }
    }
}

/// Starts a conditional on the given field's value.
pub fn if_(source: &Retriever) -> (b: IfBuilder)
    ensures
        b == (IfBuilder {
            target: source.idx,
            target_data_type: source.data_type,
            source: None,
            source_const: None,
            ord: None,
            state: BuilderState::HasTarget,
            not: false,
            len: false,
        }),
{
    IfBuilder {
        target: source.idx,
        target_data_type: share_type(&source.data_type),
        source: None,
        source_const: None,
        ord: None,
        state: BuilderState::HasTarget,
        not: false,
        len: false,
    }
}

/// Starts a negated conditional on the given field's value.
pub fn if_not(source: &Retriever) -> (b: IfBuilder)
    ensures
        b == (IfBuilder {
            target: source.idx,
            target_data_type: source.data_type,
            source: None,
            source_const: None,
            ord: None,
            state: BuilderState::HasTarget,
            not: true,
            len: false,
        }),
{
    IfBuilder {
        target: source.idx,
        target_data_type: share_type(&source.data_type),
        source: None,
        source_const: None,
        ord: None,
        state: BuilderState::HasTarget,
        not: true,
        len: false,
    }
}

/// Starts a conditional on the length of the given field's list value.
pub fn if_len(source: &Retriever) -> (b: IfBuilder)
    ensures
        b == (IfBuilder {
            target: source.idx,
            target_data_type: source.data_type,
            source: None,
            source_const: None,
            ord: None,
            state: BuilderState::HasTarget,
            not: false,
            len: true,
        }),
{
    IfBuilder {
        target: source.idx,
        target_data_type: share_type(&source.data_type),
        source: None,
        source_const: None,
        ord: None,
        state: BuilderState::HasTarget,
        not: false,
        len: true,
    }
}

/// Negated comparisons are exact complements: for every comparison
/// outcome, the outcome set a negated relational call selects contains it
/// exactly when the set the plain call selects does not. The sets are the
/// ones `eq`, `neq`, `gt`, `geq`, `lt` and `leq` put into the combinator,
/// in that pairing.
pub proof fn lemma_negation_complement(o: Ordering)
    ensures
        spec_contains_ord(seq![Ordering::Less, Ordering::Greater], o) <==> !spec_contains_ord(
            seq![Ordering::Equal],
            o,
        ),
        spec_contains_ord(seq![Ordering::Equal], o) <==> !spec_contains_ord(
            seq![Ordering::Less, Ordering::Greater],
            o,
        ),
        spec_contains_ord(seq![Ordering::Less, Ordering::Equal], o) <==> !spec_contains_ord(
            seq![Ordering::Greater],
            o,
        ),
        spec_contains_ord(seq![Ordering::Less], o) <==> !spec_contains_ord(
            seq![Ordering::Greater, Ordering::Equal],
            o,
        ),
        spec_contains_ord(seq![Ordering::Greater, Ordering::Equal], o) <==> !spec_contains_ord(
            seq![Ordering::Less],
            o,
        ),
        spec_contains_ord(seq![Ordering::Greater], o) <==> !spec_contains_ord(
            seq![Ordering::Less, Ordering::Equal],
            o,
        ),
{
    match o {
        Ordering::Less => {
            assert(seq![Ordering::Less, Ordering::Greater][0] == Ordering::Less);
            assert(seq![Ordering::Less, Ordering::Equal][0] == Ordering::Less);
            assert(seq![Ordering::Less][0] == Ordering::Less);
        },
        Ordering::Equal => {
            assert(seq![Ordering::Equal][0] == Ordering::Equal);
            assert(seq![Ordering::Less, Ordering::Equal][1] == Ordering::Equal);
            assert(seq![Ordering::Greater, Ordering::Equal][1] == Ordering::Equal);
        },
        Ordering::Greater => {
            assert(seq![Ordering::Less, Ordering::Greater][1] == Ordering::Greater);
            assert(seq![Ordering::Greater, Ordering::Equal][0] == Ordering::Greater);
            assert(seq![Ordering::Greater][0] == Ordering::Greater);
        },
    }
}

} // verus!
