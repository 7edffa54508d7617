//! The phases that a request goes through, from its draft to its outcome.

use vstd::prelude::*;

verus! {

/// Where a request stands.
#[derive(Debug, Clone, Copy, PartialEq, Eq, Structural)]
pub enum Phase {
    Drafted,
    Validated,
    Assembled,
    Dispatched,
    Succeeded,
    Failed,
}

impl Phase {
    /// How far the phase is from the draft.
    pub open spec fn rank(self) -> nat {
        match self {
            Phase::Drafted => 0,
            Phase::Validated => 1,
            Phase::Assembled => 2,
            Phase::Dispatched => 3,
            Phase::Succeeded => 4,
            Phase::Failed => 4,
        }
    }

    /// Whether the request has its outcome.
    pub open spec fn is_final(self) -> bool {
        self == Phase::Succeeded || self == Phase::Failed
    }

    /// The phase after a step that went well or did not: the next phase
    /// where it went well, `Failed` where it did not, and the phase itself
    /// where the request has its outcome already.
    pub open spec fn after(self, went_well: bool) -> Phase {
        if self.is_final() {
            self
        } else if !went_well {
            Phase::Failed
        } else {
            match self {
                Phase::Drafted => Phase::Validated,
                Phase::Validated => Phase::Assembled,
                Phase::Assembled => Phase::Dispatched,
                _ => Phase::Succeeded,
            }
        }
    }

    pub fn done(self) -> (r: bool)
        ensures
            r == self.is_final(),
    {
        match self {
            Phase::Succeeded | Phase::Failed => true,
            _ => false,
        }
    }

    /// Takes the request one step on.
    pub fn advance(self, went_well: bool) -> (r: Phase)
        ensures
            r == self.after(went_well),
    {
        match self {
            Phase::Succeeded => Phase::Succeeded,
            Phase::Failed => Phase::Failed,
            _ => if !went_well {
                Phase::Failed
            } else {
                match self {
                    Phase::Drafted => Phase::Validated,
                    Phase::Validated => Phase::Assembled,
                    Phase::Assembled => Phase::Dispatched,
                    _ => Phase::Succeeded,
                }
            },
        }
    }
}

/// A request never goes back: each step takes it further from the draft
/// until it has its outcome, and then it stays where it is.
pub proof fn lemma_one_way(phase: Phase, went_well: bool)
    ensures
        phase.is_final() ==> phase.after(went_well) == phase,
        !phase.is_final() ==> phase.after(went_well).rank() > phase.rank(),
        !phase.is_final() && !went_well ==> phase.after(went_well) == Phase::Failed,
{
}

} // verus!
