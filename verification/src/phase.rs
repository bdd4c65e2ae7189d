//! Phase declarations and the two endpoints they fix.
//!
//! A scalar is carried as the bit pattern of an IEEE-754 single-precision
//! number (what `f32::to_bits` gives). The library stores and hands on such
//! patterns and never computes with them; the pattern `0` is the number `0.0`.

use vstd::prelude::*;

verus! {

/// One declared endpoint of a transition, holding the bit pattern of its
/// scalar.
#[derive(Clone, Copy, Debug, PartialEq, Eq, Structural)]
pub enum TransitionPhase {
    /// The value a forward run starts from.
    From(u32),
    /// The value a forward run ends at.
    To(u32),
}

impl TransitionPhase {
    /// The scalar of the declaration, whichever endpoint it names.
    pub open spec fn value(self) -> u32 {
        match self {
            TransitionPhase::From(value) => value,
            TransitionPhase::To(value) => value,
        }
    }
}

/// `i` is the position of the first `From` among `phases`.
pub open spec fn is_first_from(phases: Seq<TransitionPhase>, i: int) -> bool {
    &&& 0 <= i < phases.len()
    &&& phases[i] is From
    &&& forall|j: int| 0 <= j < i ==> !(phases[j] is From)
}

/// `i` is the position of the first `To` among `phases`.
pub open spec fn is_first_to(phases: Seq<TransitionPhase>, i: int) -> bool {
    &&& 0 <= i < phases.len()
    &&& phases[i] is To
    &&& forall|j: int| 0 <= j < i ==> !(phases[j] is To)
}

/// The start value that `phases` declare: the scalar of the first `From`, and
/// zero where there is none.
pub open spec fn start_of(phases: Seq<TransitionPhase>) -> u32 {
    if exists|i: int| is_first_from(phases, i) {
        phases[choose|i: int| is_first_from(phases, i)].value()
    } else {
        0
    }
}

/// The end value that `phases` declare: the scalar of the first `To`, and zero
/// where there is none.
pub open spec fn end_of(phases: Seq<TransitionPhase>) -> u32 {
    if exists|i: int| is_first_to(phases, i) {
        phases[choose|i: int| is_first_to(phases, i)].value()
    } else {
        0
    }
}

/// The first `From` decides the start value: later ones are ignored.
pub proof fn lemma_start_of_first(phases: Seq<TransitionPhase>, i: int)
    requires
        is_first_from(phases, i),
    ensures
        start_of(phases) == phases[i].value(),
{
    let k = choose|k: int| is_first_from(phases, k);
    assert(is_first_from(phases, k));
    assert(k == i) by {
        if k < i {
            assert(!(phases[k] is From));
        } else if i < k {
            assert(!(phases[i] is From));
        }
    }
}

/// Without a `From` the start value is zero.
pub proof fn lemma_start_of_absent(phases: Seq<TransitionPhase>)
    requires
        forall|j: int| 0 <= j < phases.len() ==> !(phases[j] is From),
    ensures
        start_of(phases) == 0,
{
    assert forall|i: int| !is_first_from(phases, i) by {
        if 0 <= i < phases.len() {
            assert(!(phases[i] is From));
        }
    }
}

/// The first `To` decides the end value: later ones are ignored.
pub proof fn lemma_end_of_first(phases: Seq<TransitionPhase>, i: int)
    requires
        is_first_to(phases, i),
    ensures
        end_of(phases) == phases[i].value(),
{
    let k = choose|k: int| is_first_to(phases, k);
    assert(is_first_to(phases, k));
    assert(k == i) by {
        if k < i {
            assert(!(phases[k] is To));
        } else if i < k {
            assert(!(phases[i] is To));
        }
    }
}

/// Without a `To` the end value is zero.
pub proof fn lemma_end_of_absent(phases: Seq<TransitionPhase>)
    requires
        forall|j: int| 0 <= j < phases.len() ==> !(phases[j] is To),
    ensures
        end_of(phases) == 0,
{
    assert forall|i: int| !is_first_to(phases, i) by {
        if 0 <= i < phases.len() {
            assert(!(phases[i] is To));
        }
    }
}

/// Finds the start value among `phases`.
pub fn start_value(phases: &[TransitionPhase]) -> (value: u32)
    ensures
        value == start_of(phases@),
{
    let mut i: usize = 0;
    while i < phases.len()
        invariant
            i <= phases.len(),
            forall|j: int| 0 <= j < i ==> !(phases@[j] is From),
        decreases phases.len() - i,
    {
        if let TransitionPhase::From(value) = phases[i] {
            proof {
                lemma_start_of_first(phases@, i as int);
            }
            return value;
        }
        i += 1;
    }
    proof {
        lemma_start_of_absent(phases@);
    }
    0
}

/// Finds the end value among `phases`.
pub fn end_value(phases: &[TransitionPhase]) -> (value: u32)
    ensures
        value == end_of(phases@),
{
    let mut i: usize = 0;
    while i < phases.len()
        invariant
            i <= phases.len(),
            forall|j: int| 0 <= j < i ==> !(phases@[j] is To),
        decreases phases.len() - i,
    {
        if let TransitionPhase::To(value) = phases[i] {
            proof {
                lemma_end_of_first(phases@, i as int);
            }
            return value;
        }
        i += 1;
    }
    proof {
        lemma_end_of_absent(phases@);
    }
    0
}

} // verus!
