//! The pure planner: the declared transition table of the batch pipeline,
//! the no-progress guard, and the per-state action dispatch of the executor.

use vstd::prelude::*;

use crate::failure::PlanError;
use crate::state::{Event, State};

verus! {

/// The declared transition table: `Some(next)` for a declared (state, event)
/// pair, `None` for an undeclared one. Indexed phases accept their event both
/// at the "same phase, still arriving" state and at the "previous phase just
/// completed" state, and always produce the index carried by the event; this
/// lets the executor issue the same event shape whether it begins or
/// continues a within-phase iteration. The resubmission events walk the
/// batch-wide cursor backwards: at index `0` they roll the whole batch back
/// to the start of the previous phase instead of underflowing.
pub open spec fn spec_plan(batch_size: usize, e: Event, s: State) -> Option<State>
    recommends
        batch_size >= 1,
{
    match (s, e) {
        (State::Empty, Event::Allocate(_)) => Some(State::Allocated),
        (State::Allocated, Event::AcquireDeals { index, .. }) => Some(
            State::DealsAcquired { index },
        ),
        (State::DealsAcquired { .. }, Event::AcquireDeals { index, .. }) => Some(
            State::DealsAcquired { index },
        ),
        (State::DealsAcquired { .. }, Event::AddPiece { index, .. }) => Some(
            State::PieceAdded { index },
        ),
        (State::PieceAdded { .. }, Event::AddPiece { index, .. }) => Some(
            State::PieceAdded { index },
        ),
        (State::PieceAdded { .. }, Event::BuildTreeD { index }) => Some(
            State::TreeDBuilt { index },
        ),
        (State::TreeDBuilt { .. }, Event::BuildTreeD { index }) => Some(
            State::TreeDBuilt { index },
        ),
        (State::TreeDBuilt { .. }, Event::AssignTicket(_)) => Some(State::TicketAssigned),
        (State::TicketAssigned, Event::PC1(..)) => Some(State::PC1Done),
        (State::PC1Done, Event::PC2(..)) => Some(State::PC2Done),
        (State::PC2Done, Event::SubmitPC { index }) => Some(State::PCSubmitted { index }),
        (State::PCSubmitted { .. }, Event::SubmitPC { index }) => Some(
            State::PCSubmitted { index },
        ),
        (State::PCSubmitted { .. }, Event::CheckPC { index }) => Some(State::PCLanded { index }),
        (State::PCLanded { .. }, Event::CheckPC { index }) => Some(State::PCLanded { index }),
        (State::PCSubmitted { .. }, Event::ReSubmitPC { index }) => Some(
            if index > 0 {
                State::PCSubmitted { index: (index - 1) as usize }
            } else {
                State::PC2Done
            },
        ),
        (State::PCLanded { .. }, Event::Persist { index, .. }) => Some(State::Persisted { index }),
        (State::Persisted { .. }, Event::Persist { index, .. }) => Some(
            State::Persisted { index },
        ),
        (State::Persisted { .. }, Event::SubmitPersistance { index }) => Some(
            State::PersistanceSubmitted { index },
        ),
        (State::PersistanceSubmitted { .. }, Event::SubmitPersistance { index }) => Some(
            State::PersistanceSubmitted { index },
        ),
        (State::PersistanceSubmitted { .. }, Event::AssignSeed { index, .. }) => Some(
            State::SeedAssigned { index },
        ),
        (State::SeedAssigned { .. }, Event::AssignSeed { index, .. }) => Some(
            State::SeedAssigned { index },
        ),
        (State::SeedAssigned { .. }, Event::C1(_)) => Some(State::C1Done),
        (State::C1Done, Event::C2 { index, .. }) => Some(State::C2Done { index }),
        (State::C2Done { .. }, Event::C2 { index, .. }) => Some(State::C2Done { index }),
        (State::C2Done { .. }, Event::SubmitProof { index }) => Some(
            State::ProofSubmitted { index },
        ),
        (State::ProofSubmitted { .. }, Event::SubmitProof { index }) => Some(
            State::ProofSubmitted { index },
        ),
        (State::ProofSubmitted { .. }, Event::ReSubmitProof { index }) => Some(
            if index > 0 {
                State::ProofSubmitted { index: (index - 1) as usize }
            } else {
                State::C2Done { index: (batch_size - 1) as usize }
            },
        ),
        (State::ProofSubmitted { .. }, Event::Finish { index }) => Some(
            State::Finished { index },
        ),
        (State::Finished { .. }, Event::Finish { index }) => Some(State::Finished { index }),
        _ => None,
    }
}

/// The one side-effecting action the executor performs for a state, and the
/// sector index it acts on.
#[derive(Clone, Copy, Debug, PartialEq, Eq, Structural)]
pub enum Action {
    Allocate,
    AcquireDeals(usize),
    AddPieces(usize),
    BuildTreeD(usize),
    AssignTicket,
    PC1,
    PC2,
    SubmitPreCommit(usize),
    CheckPreCommit(usize),
    PersistFiles(usize),
    SubmitPersisted(usize),
    WaitSeed(usize),
    Commit1,
    Commit2(usize),
    SubmitProof(usize),
    CheckProof(usize),
    /// The whole batch is finished; there is nothing left to do.
    Done,
    /// The batch was aborted; the executor raises an abort failure.
    Abort,
}

/// Action selection is purely a function of the current state and the batch
/// size. For an indexed state `Phase(i)` with `i < batch_size - 1` the
/// executor performs the same phase's action for sector `i + 1`; at
/// `i == batch_size - 1` it performs the next phase's action, for sector `0`
/// or for the whole batch. Sectors are thus processed breadth-first by
/// phase: every sector finishes a phase before any sector starts the next.
pub open spec fn spec_dispatch(s: State, batch_size: usize) -> Action
    recommends
        batch_size >= 1,
{
    match s {
        State::Empty => Action::Allocate,
        State::Allocated => Action::AcquireDeals(0),
        State::DealsAcquired { index } => if index < batch_size - 1 {
            Action::AcquireDeals((index + 1) as usize)
        } else {
            Action::AddPieces(0)
        },
        State::PieceAdded { index } => if index < batch_size - 1 {
            Action::AddPieces((index + 1) as usize)
        } else {
            Action::BuildTreeD(0)
        },
        State::TreeDBuilt { index } => if index < batch_size - 1 {
            Action::BuildTreeD((index + 1) as usize)
        } else {
            Action::AssignTicket
        },
        State::TicketAssigned => Action::PC1,
        State::PC1Done => Action::PC2,
        State::PC2Done => Action::SubmitPreCommit(0),
        State::PCSubmitted { index } => if index < batch_size - 1 {
            Action::SubmitPreCommit((index + 1) as usize)
        } else {
            Action::CheckPreCommit(0)
        },
        State::PCLanded { index } => if index < batch_size - 1 {
            Action::CheckPreCommit((index + 1) as usize)
        } else {
            Action::PersistFiles(0)
        },
        State::Persisted { index } => if index < batch_size - 1 {
            Action::PersistFiles((index + 1) as usize)
        } else {
            Action::SubmitPersisted(0)
        },
        State::PersistanceSubmitted { index } => if index < batch_size - 1 {
            Action::SubmitPersisted((index + 1) as usize)
        } else {
            Action::WaitSeed(0)
        },
        State::SeedAssigned { index } => if index < batch_size - 1 {
            Action::WaitSeed((index + 1) as usize)
        } else {
            Action::Commit1
        },
        State::C1Done => Action::Commit2(0),
        State::C2Done { index } => if index < batch_size - 1 {
            Action::Commit2((index + 1) as usize)
        } else {
            Action::SubmitProof(0)
        },
        State::ProofSubmitted { index } => if index < batch_size - 1 {
            Action::SubmitProof((index + 1) as usize)
        } else {
            Action::CheckProof(0)
        },
        State::Finished { index } => if index < batch_size - 1 {
            Action::CheckProof((index + 1) as usize)
        } else {
            Action::Done
        },
        State::Aborted => Action::Abort,
    }
}

/// The planner for the batch pipeline; `batch_size` is fixed when the batch
/// is created.
pub struct BatchPlanner {
    pub batch_size: usize,
}

impl BatchPlanner {
    /// The human-readable name of this pipeline kind.
    pub fn name(&self) -> (r: &'static str)
        ensures
            r@ == "batch"@,
    {
        "batch"
    }

    /// Computes the next logical state for an event, a pure total function
    /// over the declared (state, event) pairs. An undeclared pair fails with
    /// [`PlanError::UnexpectedStateEvent`] (it indicates a driver bug). A
    /// computed next state equal to the current one is rejected with
    /// [`PlanError::StateUnchanged`] instead of being returned: accepting it
    /// would let the driver spin forever. Hence a successful plan always
    /// makes progress: the returned state differs from the input state.
    pub fn plan(&self, evt: &Event, st: &State) -> (r: Result<State, PlanError>)
        requires
            self.batch_size >= 1,
        ensures
            match r {
                Ok(next) => spec_plan(self.batch_size, *evt, *st) == Some(next) && next != *st,
                Err(e) => {
                    ||| (e == PlanError::UnexpectedStateEvent && spec_plan(
                        self.batch_size,
                        *evt,
                        *st,
                    ) is None)
                    ||| (e == PlanError::StateUnchanged && spec_plan(self.batch_size, *evt, *st)
                        == Some(*st))
                },
            },
    {
        let next: State = match (st, evt) {
            (State::Empty, Event::Allocate(..)) => State::Allocated,
            (State::Allocated, Event::AcquireDeals { index, .. })
            | (State::DealsAcquired { .. }, Event::AcquireDeals { index, .. }) => {
                State::DealsAcquired { index: *index }
            },
            (State::DealsAcquired { .. }, Event::AddPiece { index, .. })
            | (State::PieceAdded { .. }, Event::AddPiece { index, .. }) => {
                State::PieceAdded { index: *index }
            },
            (State::PieceAdded { .. }, Event::BuildTreeD { index })
            | (State::TreeDBuilt { .. }, Event::BuildTreeD { index }) => {
                State::TreeDBuilt { index: *index }
            },
            (State::TreeDBuilt { .. }, Event::AssignTicket(..)) => State::TicketAssigned,
            (State::TicketAssigned, Event::PC1(..)) => State::PC1Done,
            (State::PC1Done, Event::PC2(..)) => State::PC2Done,
            (State::PC2Done, Event::SubmitPC { index })
            | (State::PCSubmitted { .. }, Event::SubmitPC { index }) => {
                State::PCSubmitted { index: *index }
            },
            (State::PCSubmitted { .. }, Event::CheckPC { index })
            | (State::PCLanded { .. }, Event::CheckPC { index }) => {
                State::PCLanded { index: *index }
            },
            (State::PCSubmitted { .. }, Event::ReSubmitPC { index }) => {
                if *index > 0 {
                    State::PCSubmitted { index: *index - 1 }
                } else {
                    State::PC2Done
                }
            },
            (State::PCLanded { .. }, Event::Persist { index, .. })
            | (State::Persisted { .. }, Event::Persist { index, .. }) => {
                State::Persisted { index: *index }
            },
            (State::Persisted { .. }, Event::SubmitPersistance { index })
            | (State::PersistanceSubmitted { .. }, Event::SubmitPersistance { index }) => {
                State::PersistanceSubmitted { index: *index }
            },
            (State::PersistanceSubmitted { .. }, Event::AssignSeed { index, .. })
            | (State::SeedAssigned { .. }, Event::AssignSeed { index, .. }) => {
                State::SeedAssigned { index: *index }
            },
            (State::SeedAssigned { .. }, Event::C1(..)) => State::C1Done,
            (State::C1Done, Event::C2 { index, .. })
            | (State::C2Done { .. }, Event::C2 { index, .. }) => State::C2Done { index: *index },
            (State::C2Done { .. }, Event::SubmitProof { index })
            | (State::ProofSubmitted { .. }, Event::SubmitProof { index }) => {
                State::ProofSubmitted { index: *index }
            },
            (State::ProofSubmitted { .. }, Event::ReSubmitProof { index }) => {
                if *index > 0 {
                    State::ProofSubmitted { index: *index - 1 }
                } else {
                    State::C2Done { index: self.batch_size - 1 }
                }
            },
            (State::ProofSubmitted { .. }, Event::Finish { index })
            | (State::Finished { .. }, Event::Finish { index }) => {
                State::Finished { index: *index }
            },
            _ => {
                return Err(PlanError::UnexpectedStateEvent);
            },
        };
        if next == *st {
            return Err(PlanError::StateUnchanged);
        }
        Ok(next)
    }

    /// Selects the executor action for the current state; exactly
    /// [`spec_dispatch`].
    pub fn dispatch(&self, st: &State, batch_size: usize) -> (a: Action)
        requires
            batch_size >= 1,
        ensures
            a == spec_dispatch(*st, batch_size),
    {
        match st {
            State::Empty => Action::Allocate,
            State::Allocated => Action::AcquireDeals(0),
            State::DealsAcquired { index } => if *index < batch_size - 1 {
                Action::AcquireDeals(*index + 1)
            } else {
                Action::AddPieces(0)
            },
            State::PieceAdded { index } => if *index < batch_size - 1 {
                Action::AddPieces(*index + 1)
            } else {
                Action::BuildTreeD(0)
            },
            State::TreeDBuilt { index } => if *index < batch_size - 1 {
                Action::BuildTreeD(*index + 1)
            } else {
                Action::AssignTicket
            },
            State::TicketAssigned => Action::PC1,
            State::PC1Done => Action::PC2,
            State::PC2Done => Action::SubmitPreCommit(0),
            State::PCSubmitted { index } => if *index < batch_size - 1 {
                Action::SubmitPreCommit(*index + 1)
            } else {
                Action::CheckPreCommit(0)
            },
            State::PCLanded { index } => if *index < batch_size - 1 {
                Action::CheckPreCommit(*index + 1)
            } else {
                Action::PersistFiles(0)
            },
            State::Persisted { index } => if *index < batch_size - 1 {
                Action::PersistFiles(*index + 1)
            } else {
                Action::SubmitPersisted(0)
            },
            State::PersistanceSubmitted { index } => if *index < batch_size - 1 {
                Action::SubmitPersisted(*index + 1)
            } else {
                Action::WaitSeed(0)
            },
            State::SeedAssigned { index } => if *index < batch_size - 1 {
                Action::WaitSeed(*index + 1)
            } else {
                Action::Commit1
            },
            State::C1Done => Action::Commit2(0),
            State::C2Done { index } => if *index < batch_size - 1 {
                Action::Commit2(*index + 1)
            } else {
                Action::SubmitProof(0)
            },
            State::ProofSubmitted { index } => if *index < batch_size - 1 {
                Action::SubmitProof(*index + 1)
            } else {
                Action::CheckProof(0)
            },
            State::Finished { index } => if *index < batch_size - 1 {
                Action::CheckProof(*index + 1)
            } else {
                Action::Done
            },
            State::Aborted => Action::Abort,
        }
    }
}

/// Resubmission rolls the batch-wide cursor back by one within the same
/// phase, and at index `0` rolls the whole batch back to the start of the
/// previous phase: `ReSubmitPC` to the second pre-commit output, and
/// `ReSubmitProof` to the second commit output of the last sector.
pub proof fn lemma_resubmit_rollback(batch_size: usize, i: usize, cur: usize)
    requires
        batch_size >= 1,
    ensures
        i > 0 ==> spec_plan(
            batch_size,
            Event::ReSubmitPC { index: i },
            State::PCSubmitted { index: cur },
        ) == Some(State::PCSubmitted { index: (i - 1) as usize }),
        spec_plan(
            batch_size,
            Event::ReSubmitPC { index: 0 },
            State::PCSubmitted { index: cur },
        ) == Some(State::PC2Done),
        i > 0 ==> spec_plan(
            batch_size,
            Event::ReSubmitProof { index: i },
            State::ProofSubmitted { index: cur },
        ) == Some(State::ProofSubmitted { index: (i - 1) as usize }),
        spec_plan(
            batch_size,
            Event::ReSubmitProof { index: 0 },
            State::ProofSubmitted { index: cur },
        ) == Some(State::C2Done { index: (batch_size - 1) as usize }),
{
}

/// The executor's batch-advance boundary: at an indexed state `Phase(i)`
/// with `i < batch_size - 1` the selected action stays in the same phase and
/// acts on sector `i + 1`; at `i == batch_size - 1` it advances to the next
/// phase.
pub proof fn lemma_batch_advance_boundary(batch_size: usize, i: usize)
    requires
        batch_size >= 1,
    ensures
        i < batch_size - 1 ==> {
            &&& spec_dispatch(State::DealsAcquired { index: i }, batch_size)
                == Action::AcquireDeals((i + 1) as usize)
            &&& spec_dispatch(State::PieceAdded { index: i }, batch_size) == Action::AddPieces(
                (i + 1) as usize,
            )
            &&& spec_dispatch(State::TreeDBuilt { index: i }, batch_size) == Action::BuildTreeD(
                (i + 1) as usize,
            )
            &&& spec_dispatch(State::PCSubmitted { index: i }, batch_size)
                == Action::SubmitPreCommit((i + 1) as usize)
            &&& spec_dispatch(State::PCLanded { index: i }, batch_size)
                == Action::CheckPreCommit((i + 1) as usize)
            &&& spec_dispatch(State::Persisted { index: i }, batch_size) == Action::PersistFiles(
                (i + 1) as usize,
            )
            &&& spec_dispatch(State::PersistanceSubmitted { index: i }, batch_size)
                == Action::SubmitPersisted((i + 1) as usize)
            &&& spec_dispatch(State::SeedAssigned { index: i }, batch_size) == Action::WaitSeed(
                (i + 1) as usize,
            )
            &&& spec_dispatch(State::C2Done { index: i }, batch_size) == Action::Commit2(
                (i + 1) as usize,
            )
            &&& spec_dispatch(State::ProofSubmitted { index: i }, batch_size)
                == Action::SubmitProof((i + 1) as usize)
            &&& spec_dispatch(State::Finished { index: i }, batch_size) == Action::CheckProof(
                (i + 1) as usize,
            )
        },
        i >= batch_size - 1 ==> {
            &&& spec_dispatch(State::DealsAcquired { index: i }, batch_size) == Action::AddPieces(
                0,
            )
            &&& spec_dispatch(State::PieceAdded { index: i }, batch_size) == Action::BuildTreeD(0)
            &&& spec_dispatch(State::TreeDBuilt { index: i }, batch_size) == Action::AssignTicket
            &&& spec_dispatch(State::PCSubmitted { index: i }, batch_size)
                == Action::CheckPreCommit(0)
            &&& spec_dispatch(State::PCLanded { index: i }, batch_size) == Action::PersistFiles(0)
            &&& spec_dispatch(State::Persisted { index: i }, batch_size)
                == Action::SubmitPersisted(0)
            &&& spec_dispatch(State::PersistanceSubmitted { index: i }, batch_size)
                == Action::WaitSeed(0)
            &&& spec_dispatch(State::SeedAssigned { index: i }, batch_size) == Action::Commit1
            &&& spec_dispatch(State::C2Done { index: i }, batch_size) == Action::SubmitProof(0)
            &&& spec_dispatch(State::ProofSubmitted { index: i }, batch_size)
                == Action::CheckProof(0)
            &&& spec_dispatch(State::Finished { index: i }, batch_size) == Action::Done
        },
{
}

} // verus!
