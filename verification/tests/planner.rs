use batch_sealer::failure::PlanError;
use batch_sealer::planner::{Action, BatchPlanner};
use batch_sealer::state::{Event, State};

fn planner() -> BatchPlanner {
    BatchPlanner { batch_size: 3 }
}

#[test]
fn plan_is_deterministic_on_declared_pairs() {
    let p = planner();
    let a = p.plan(&Event::Allocate(Vec::new()), &State::Empty).unwrap();
    let b = p.plan(&Event::Allocate(Vec::new()), &State::Empty).unwrap();
    assert_eq!(a, State::Allocated);
    assert_eq!(b, State::Allocated);
    assert_eq!(
        p.plan(&Event::SubmitPC { index: 0 }, &State::PC2Done).unwrap(),
        State::PCSubmitted { index: 0 }
    );
    assert_eq!(
        p.plan(&Event::CheckPC { index: 1 }, &State::PCSubmitted { index: 2 }).unwrap(),
        State::PCLanded { index: 1 }
    );
    assert_eq!(
        p.plan(&Event::Finish { index: 2 }, &State::ProofSubmitted { index: 2 }).unwrap(),
        State::Finished { index: 2 }
    );
}

#[test]
fn plan_fails_on_undeclared_pairs() {
    let p = planner();
    assert_eq!(
        p.plan(&Event::Idle, &State::Empty),
        Err(PlanError::UnexpectedStateEvent)
    );
    assert_eq!(
        p.plan(&Event::Finish { index: 0 }, &State::Empty),
        Err(PlanError::UnexpectedStateEvent)
    );
    assert_eq!(
        p.plan(&Event::Allocate(Vec::new()), &State::Aborted),
        Err(PlanError::UnexpectedStateEvent)
    );
}

#[test]
fn plan_rejects_a_transition_to_the_same_state() {
    let p = planner();
    assert_eq!(
        p.plan(
            &Event::AcquireDeals { index: 1, deals: None },
            &State::DealsAcquired { index: 1 }
        ),
        Err(PlanError::StateUnchanged)
    );
    assert_eq!(
        p.plan(&Event::CheckPC { index: 0 }, &State::PCLanded { index: 0 }),
        Err(PlanError::StateUnchanged)
    );
}

#[test]
fn resubmit_pre_commit_rolls_back_within_the_phase() {
    let p = planner();
    assert_eq!(
        p.plan(&Event::ReSubmitPC { index: 2 }, &State::PCSubmitted { index: 2 }).unwrap(),
        State::PCSubmitted { index: 1 }
    );
    assert_eq!(
        p.plan(&Event::ReSubmitPC { index: 0 }, &State::PCSubmitted { index: 2 }).unwrap(),
        State::PC2Done
    );
}

#[test]
fn resubmit_proof_rolls_back_to_the_last_commit_output() {
    let p = planner();
    assert_eq!(
        p.plan(&Event::ReSubmitProof { index: 1 }, &State::ProofSubmitted { index: 1 }).unwrap(),
        State::ProofSubmitted { index: 0 }
    );
    assert_eq!(
        p.plan(&Event::ReSubmitProof { index: 0 }, &State::ProofSubmitted { index: 1 }).unwrap(),
        State::C2Done { index: 2 }
    );
}

#[test]
fn dispatch_advances_the_index_within_a_phase() {
    let p = planner();
    assert_eq!(
        p.dispatch(&State::DealsAcquired { index: 0 }, 3),
        Action::AcquireDeals(1)
    );
    assert_eq!(
        p.dispatch(&State::PCSubmitted { index: 1 }, 3),
        Action::SubmitPreCommit(2)
    );
    assert_eq!(
        p.dispatch(&State::SeedAssigned { index: 0 }, 3),
        Action::WaitSeed(1)
    );
    assert_eq!(p.dispatch(&State::Finished { index: 0 }, 3), Action::CheckProof(1));
}

#[test]
fn dispatch_advances_the_phase_at_the_last_index() {
    let p = planner();
    assert_eq!(p.dispatch(&State::DealsAcquired { index: 2 }, 3), Action::AddPieces(0));
    assert_eq!(p.dispatch(&State::PCSubmitted { index: 2 }, 3), Action::CheckPreCommit(0));
    assert_eq!(p.dispatch(&State::SeedAssigned { index: 2 }, 3), Action::Commit1);
    assert_eq!(p.dispatch(&State::Finished { index: 2 }, 3), Action::Done);
    assert_eq!(p.dispatch(&State::Aborted, 3), Action::Abort);
}
