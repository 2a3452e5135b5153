use batch_sealer::exec::BatchSealer;
use batch_sealer::failure::FailureKind;
use batch_sealer::job::{Job, WorkerIdentifier};
use batch_sealer::planner::BatchPlanner;
use batch_sealer::rpc::{
    OnChainState, PollStateResp, SealingConfig, SubmitResp, SubmitResult, WaitSeedResp,
};
use batch_sealer::scripted::ScriptedPorts;
use batch_sealer::sectors::{
    AllocatedSector, Base, ProveInput, SectorId, Sectors, SectorsDoc, Seed, Ticket, to_prover_id,
};
use batch_sealer::state::{Event, State};

fn config() -> SealingConfig {
    SealingConfig {
        allowed_miners: vec![1],
        allowed_proof_types: vec![8],
        disable_cc: false,
        enable_deals: false,
        max_deals: None,
        min_deal_space: None,
        rpc_polling_interval: 7,
        ignore_proof_check: false,
        max_poll_rounds: 64,
    }
}

fn job(batch_size: usize, ports: ScriptedPorts, config: SealingConfig) -> Job<ScriptedPorts> {
    Job {
        sectors: SectorsDoc::new(Sectors::new(batch_size)),
        ports,
        config,
        ident: WorkerIdentifier { owner: "t01000".to_string(), instance: "worker-a".to_string() },
    }
}

fn allocated(number: u64) -> AllocatedSector {
    AllocatedSector { id: SectorId { miner: 1, number }, proof_type: 8 }
}

fn give_base(j: &mut Job<ScriptedPorts>, index: usize) {
    let a = allocated(10 + index as u64);
    j.sectors.inner.sectors[index].base = Some(Base {
        allocated: a,
        prove_input: ProveInput { prover_id: to_prover_id(a.id.miner), sector_number: a.id.number },
    });
}

#[test]
fn empty_batch_allocates_three_sectors_and_advances() {
    let mut ports = ScriptedPorts::new();
    ports.allocations = vec![Ok(vec![allocated(10), allocated(11), allocated(12)])];
    let mut j = job(3, ports, config());
    let planner = BatchPlanner { batch_size: 3 };

    let ev = planner.exec(&mut j).unwrap().unwrap();
    assert!(matches!(ev, Event::Allocate(ref v) if v.len() == 3));
    let next = planner.plan(&ev, &State::Empty).unwrap();
    assert_eq!(next, State::Allocated);
    ev.apply(next, &mut j).unwrap();
    assert_eq!(j.sectors.inner.state, State::Allocated);
    assert!(j.sectors.is_dirty());
    for k in 0..3 {
        let base = j.sectors.inner.sectors[k].base.as_ref().unwrap();
        assert_eq!(base.allocated.id.number, 10 + k as u64);
        assert_eq!(base.prove_input.prover_id.len(), 32);
    }
}

#[test]
fn failed_or_empty_allocation_stays_idle() {
    let mut ports = ScriptedPorts::new();
    ports.allocations = vec![Ok(Vec::new())];
    let mut j = job(3, ports, config());
    let ev = BatchSealer::allocate(&mut j).unwrap();
    assert!(matches!(ev, Event::Idle));

    // An exhausted script answers with an RPC error; allocation still only
    // goes idle.
    let mut j2 = job(3, ScriptedPorts::new(), config());
    let ev2 = BatchSealer::allocate(&mut j2).unwrap();
    assert!(matches!(ev2, Event::Idle));
}

#[test]
fn deal_acquisition_mid_phase_keeps_the_event_index() {
    // The scenario mid-step: AcquireDeals at index 2 while the batch sits at
    // DealsAcquired{1} moves it to DealsAcquired{2}; only then does the
    // executor proceed to piece adding, at index 0.
    let planner = BatchPlanner { batch_size: 3 };
    let ev = Event::AcquireDeals { index: 2, deals: None };
    let next = planner.plan(&ev, &State::DealsAcquired { index: 1 }).unwrap();
    assert_eq!(next, State::DealsAcquired { index: 2 });
    assert_eq!(
        planner.dispatch(&State::DealsAcquired { index: 1 }, 3),
        batch_sealer::planner::Action::AcquireDeals(2)
    );
    assert_eq!(
        planner.dispatch(&State::DealsAcquired { index: 2 }, 3),
        batch_sealer::planner::Action::AddPieces(0)
    );
}

#[test]
fn disabled_deals_short_circuit_the_phase() {
    let mut cfg = config();
    cfg.enable_deals = false;
    cfg.disable_cc = false;
    let mut j = job(3, ScriptedPorts::new(), cfg);
    let ev = BatchSealer::acquire_deals(&mut j, 0).unwrap();
    assert!(matches!(ev, Event::AcquireDeals { index: 3, deals: None }));

    let mut cfg2 = config();
    cfg2.enable_deals = false;
    cfg2.disable_cc = true;
    let mut j2 = job(3, ScriptedPorts::new(), cfg2);
    let ev2 = BatchSealer::acquire_deals(&mut j2, 0).unwrap();
    assert!(matches!(ev2, Event::Idle));
}

#[test]
fn pending_polls_sleep_then_a_landed_poll_confirms() {
    // Pending three times, then landed: exactly one check event, after
    // three interruptible sleeps of the configured polling interval.
    let mut ports = ScriptedPorts::new();
    ports.pre_commit_polls = vec![
        Ok(PollStateResp { state: OnChainState::Pending, desc: None }),
        Ok(PollStateResp { state: OnChainState::Pending, desc: None }),
        Ok(PollStateResp { state: OnChainState::Pending, desc: None }),
        Ok(PollStateResp { state: OnChainState::Landed, desc: None }),
    ];
    let mut j = job(3, ports, config());
    give_base(&mut j, 0);
    let ev = BatchSealer::check_pre_commit_state(&mut j, 0).unwrap();
    assert!(matches!(ev, Event::CheckPC { index: 0 }));
    assert_eq!(j.ports.sleeps, vec![7, 7, 7]);
    assert_eq!(j.ports.pre_commit_polls.len(), 0);
}

#[test]
fn a_failed_poll_cools_down_and_asks_for_resubmission() {
    let mut ports = ScriptedPorts::new();
    ports.pre_commit_polls = vec![
        Ok(PollStateResp { state: OnChainState::Failed, desc: Some("gas".to_string()) }),
    ];
    let mut j = job(3, ports, config());
    give_base(&mut j, 1);
    let ev = BatchSealer::check_pre_commit_state(&mut j, 1).unwrap();
    assert!(matches!(ev, Event::ReSubmitPC { index: 1 }));
    assert_eq!(j.ports.sleeps, vec![30]);
}

#[test]
fn a_missing_or_doomed_poll_fails_the_sector() {
    let mut ports = ScriptedPorts::new();
    ports.pre_commit_polls = vec![
        Ok(PollStateResp { state: OnChainState::NotFound, desc: Some("epoch 12".to_string()) }),
    ];
    let mut j = job(3, ports, config());
    give_base(&mut j, 0);
    let f = BatchSealer::check_pre_commit_state(&mut j, 0).unwrap_err();
    assert_eq!(f.kind, FailureKind::Permanent);
    assert_eq!(f.message, "pre commit on-chain info not found: epoch 12");

    let mut ports2 = ScriptedPorts::new();
    ports2.proof_polls = vec![
        Ok(PollStateResp { state: OnChainState::ShouldAbort, desc: None }),
    ];
    let mut j2 = job(3, ports2, config());
    give_base(&mut j2, 0);
    let f2 = BatchSealer::check_proof_state(&mut j2, 0).unwrap_err();
    assert_eq!(f2.kind, FailureKind::Abort);
}

#[test]
fn a_cancelled_wait_fails_distinctly_from_a_timeout() {
    let mut ports = ScriptedPorts::new();
    ports.cancelled = true;
    ports.pre_commit_polls = vec![
        Ok(PollStateResp { state: OnChainState::Pending, desc: None }),
    ];
    let mut j = job(3, ports, config());
    give_base(&mut j, 0);
    let f = BatchSealer::check_pre_commit_state(&mut j, 0).unwrap_err();
    assert_eq!(f.kind, FailureKind::Abort);
    assert_eq!(f.message, "sealing interrupted");
}

#[test]
fn empty_wait_seed_response_is_a_temporary_failure() {
    // seed absent, should_wait set, zero delay: the invalid empty response.
    let mut ports = ScriptedPorts::new();
    ports.seed_polls = vec![
        Ok(WaitSeedResp { seed: None, should_wait: true, delay: 0 }),
    ];
    let mut j = job(3, ports, config());
    give_base(&mut j, 0);
    let f = BatchSealer::wait_seed(&mut j, 0).unwrap_err();
    assert_eq!(f.kind, FailureKind::Temporary);
    assert_eq!(f.message, "invalid empty wait_seed response");
}

#[test]
fn wait_seed_waits_the_server_given_delay_then_assigns() {
    let mut ports = ScriptedPorts::new();
    ports.seed_polls = vec![
        Ok(WaitSeedResp { seed: None, should_wait: true, delay: 11 }),
        Ok(WaitSeedResp {
            seed: Some(Seed { seed: vec![9, 9], epoch: 77 }),
            should_wait: false,
            delay: 0,
        }),
    ];
    let mut j = job(3, ports, config());
    give_base(&mut j, 2);
    let ev = BatchSealer::wait_seed(&mut j, 2).unwrap();
    match ev {
        Event::AssignSeed { index, seed } => {
            assert_eq!(index, 2);
            assert_eq!(seed.seed, vec![9, 9]);
            assert_eq!(seed.epoch, 77);
        }
        other => panic!("unexpected event {:?}", other),
    }
    assert_eq!(j.ports.sleeps, vec![11]);
}

#[test]
fn finished_batch_returns_no_event() {
    let mut j = job(3, ScriptedPorts::new(), config());
    j.sectors.inner.state = State::Finished { index: 2 };
    let planner = BatchPlanner { batch_size: 3 };
    let r = planner.exec(&mut j).unwrap();
    assert!(r.is_none());
}

#[test]
fn aborted_batch_fails_unconditionally() {
    let mut j = job(3, ScriptedPorts::new(), config());
    j.sectors.inner.state = State::Aborted;
    let planner = BatchPlanner { batch_size: 3 };
    let f = planner.exec(&mut j).unwrap_err();
    assert_eq!(f.kind, FailureKind::Abort);
}

#[test]
fn duplicate_submission_succeeds_like_an_accepted_one() {
    // Submission idempotence: an already-submitted answer yields the same
    // success event as an accepted one.
    let mut accepted = ScriptedPorts::new();
    accepted.pre_commit_submissions = vec![
        Ok(SubmitResp { res: SubmitResult::Accepted, desc: None }),
    ];
    let mut duplicated = ScriptedPorts::new();
    duplicated.pre_commit_submissions = vec![
        Ok(SubmitResp { res: SubmitResult::DuplicateSubmit, desc: None }),
    ];

    let mut ja = job(3, accepted, config());
    let mut jd = job(3, duplicated, config());
    for j in [&mut ja, &mut jd] {
        give_base(j, 0);
        j.sectors.inner.sectors[0].phases.pc2out = Some(batch_sealer::sectors::Pc2Out {
            comm_r: vec![1; 32],
            comm_d: vec![2; 32],
        });
        j.sectors.inner.sectors[0].phases.ticket = Some(Ticket { ticket: vec![3; 32], epoch: 5 });
    }
    let ea = BatchSealer::submit_pre_commit(&mut ja, 0).unwrap();
    let ed = BatchSealer::submit_pre_commit(&mut jd, 0).unwrap();
    assert!(matches!(ea, Event::SubmitPC { index: 0 }));
    assert!(matches!(ed, Event::SubmitPC { index: 0 }));
}

#[test]
fn rejected_submission_aborts_and_mismatch_is_permanent() {
    let mut ports = ScriptedPorts::new();
    ports.proof_submissions = vec![
        Ok(SubmitResp { res: SubmitResult::Rejected, desc: Some("gas too low".to_string()) }),
        Ok(SubmitResp { res: SubmitResult::MismatchedSubmission, desc: None }),
    ];
    let mut j = job(3, ports, config());
    give_base(&mut j, 0);
    j.sectors.inner.sectors[0].phases.c2out =
        Some(batch_sealer::sectors::C2Out { proof: vec![4; 16] });
    let f = BatchSealer::submit_proof(&mut j, 0).unwrap_err();
    assert_eq!(f.kind, FailureKind::Abort);
    // The chain's description is reported with the failure.
    assert_eq!(f.message, "submission rejected by the chain: gas too low");
    let f2 = BatchSealer::submit_proof(&mut j, 0).unwrap_err();
    assert_eq!(f2.kind, FailureKind::Permanent);
    assert_eq!(f2.message, "submission mismatched with the chain-visible state");
}

#[test]
fn missing_prior_phase_data_is_critical() {
    let mut j = job(3, ScriptedPorts::new(), config());
    give_base(&mut j, 0);
    // No second pre-commit output and no ticket yet.
    let f = BatchSealer::submit_pre_commit(&mut j, 0).unwrap_err();
    assert_eq!(f.kind, FailureKind::Critical);
    // Out-of-bounds sector index.
    let f2 = BatchSealer::submit_persisted(&mut j, 9).unwrap_err();
    assert_eq!(f2.kind, FailureKind::Critical);
}

#[test]
fn assign_ticket_reuses_a_persisted_ticket() {
    let mut j = job(3, ScriptedPorts::new(), config());
    give_base(&mut j, 0);
    j.sectors.inner.sectors[0].phases.ticket = Some(Ticket { ticket: vec![6; 32], epoch: 42 });
    // The script has no ticket response: reuse must not ask the gateway.
    let ev = BatchSealer::assign_ticket(&mut j).unwrap();
    match ev {
        Event::AssignTicket(t) => {
            assert_eq!(t.ticket, vec![6; 32]);
            assert_eq!(t.epoch, 42);
        }
        other => panic!("unexpected event {:?}", other),
    }
}

#[test]
fn ignored_proof_check_finishes_immediately() {
    let mut cfg = config();
    cfg.ignore_proof_check = true;
    let mut j = job(3, ScriptedPorts::new(), cfg);
    give_base(&mut j, 1);
    let ev = BatchSealer::check_proof_state(&mut j, 1).unwrap();
    assert!(matches!(ev, Event::Finish { index: 1 }));
    assert_eq!(j.ports.sleeps.len(), 0);
}
