use batch_sealer::job::{Job, WorkerIdentifier};
use batch_sealer::rpc::SealingConfig;
use batch_sealer::scripted::ScriptedPorts;
use batch_sealer::sectors::{
    DealInfo, Pc1Out, Sectors, SectorsDoc, Ticket, to_prover_id,
};
use batch_sealer::state::{Event, State};

fn config() -> SealingConfig {
    SealingConfig {
        allowed_miners: vec![1],
        allowed_proof_types: vec![8],
        disable_cc: false,
        enable_deals: true,
        max_deals: Some(4),
        min_deal_space: None,
        rpc_polling_interval: 10,
        ignore_proof_check: false,
        max_poll_rounds: 8,
    }
}

fn job(batch_size: usize) -> Job<ScriptedPorts> {
    Job {
        sectors: SectorsDoc::new(Sectors::new(batch_size)),
        ports: ScriptedPorts::new(),
        config: config(),
        ident: WorkerIdentifier { owner: "t01000".to_string(), instance: "worker-a".to_string() },
    }
}

#[test]
fn a_fresh_record_is_clean_and_mutation_marks_it_dirty() {
    let mut doc = SectorsDoc::new(Sectors::new(2));
    assert!(!doc.is_dirty());
    doc.inner_mut().state = State::Allocated;
    assert!(doc.is_dirty());
    assert!(doc.commit());
    assert!(!doc.is_dirty());
    // Committing a clean record owes no write.
    assert!(!doc.commit());
}

#[test]
fn applying_an_event_updates_state_and_payload() {
    let mut j = job(3);
    j.sectors.inner.state = State::Allocated;
    let deals = vec![DealInfo { id: 7, piece_size: 128 }];
    let ev = Event::AcquireDeals { index: 0, deals: Some(deals) };
    ev.apply(State::DealsAcquired { index: 0 }, &mut j).unwrap();
    assert_eq!(j.sectors.inner.state, State::DealsAcquired { index: 0 });
    assert!(j.sectors.is_dirty());
    let stored = j.sectors.inner.sectors[0].deals.as_ref().unwrap();
    assert_eq!(stored.len(), 1);
    assert_eq!(stored[0].id, 7);
    assert!(j.sectors.inner.sectors[1].deals.is_none());
}

#[test]
fn applying_an_event_that_keeps_the_state_is_rejected() {
    let mut j = job(3);
    j.sectors.inner.state = State::DealsAcquired { index: 0 };
    let ev = Event::AcquireDeals { index: 0, deals: None };
    let r = ev.apply(State::DealsAcquired { index: 0 }, &mut j);
    assert!(r.is_err());
    assert!(!j.sectors.is_dirty());
}

#[test]
fn set_state_overrides_the_planned_state() {
    let mut j = job(2);
    let ev = Event::SetState(State::Aborted);
    ev.apply(State::Empty, &mut j).unwrap();
    assert_eq!(j.sectors.inner.state, State::Aborted);
}

#[test]
fn assigning_a_ticket_reaches_every_sector() {
    let mut j = job(3);
    j.sectors.inner.state = State::TreeDBuilt { index: 2 };
    let ev = Event::AssignTicket(Ticket { ticket: vec![1, 2, 3], epoch: 9 });
    ev.apply(State::TicketAssigned, &mut j).unwrap();
    for k in 0..3 {
        let t = j.sectors.inner.sectors[k].phases.ticket.as_ref().unwrap();
        assert_eq!(t.ticket, vec![1, 2, 3]);
        assert_eq!(t.epoch, 9);
    }
}

#[test]
fn first_pre_commit_outputs_land_one_per_sector() {
    let mut j = job(2);
    j.sectors.inner.state = State::TicketAssigned;
    let ev = Event::PC1(
        Ticket { ticket: vec![5], epoch: 1 },
        vec![Pc1Out { out: vec![10] }, Pc1Out { out: vec![20] }],
    );
    ev.apply(State::PC1Done, &mut j).unwrap();
    assert_eq!(
        j.sectors.inner.sectors[0].phases.pc1out.as_ref().unwrap().out,
        vec![10]
    );
    assert_eq!(
        j.sectors.inner.sectors[1].phases.pc1out.as_ref().unwrap().out,
        vec![20]
    );
}

#[test]
fn resubmission_flags_follow_their_events() {
    let mut j = job(2);
    j.sectors.inner.state = State::PCSubmitted { index: 1 };
    Event::ReSubmitPC { index: 1 }
        .apply(State::PCSubmitted { index: 0 }, &mut j)
        .unwrap();
    assert!(j.sectors.inner.sectors[1].phases.pc2_re_submit);
    Event::SubmitPC { index: 1 }
        .apply(State::PCSubmitted { index: 1 }, &mut j)
        .unwrap();
    assert!(!j.sectors.inner.sectors[1].phases.pc2_re_submit);
}

#[test]
fn prover_identity_is_the_little_endian_actor_id_padded() {
    let id = to_prover_id(0x0102030405060708);
    assert_eq!(id.len(), 32);
    assert_eq!(&id[..8], &[0x08, 0x07, 0x06, 0x05, 0x04, 0x03, 0x02, 0x01]);
    assert!(id[8..].iter().all(|b| *b == 0));
}

#[test]
fn sector_lookup_is_bounded() {
    let j = job(2);
    assert!(j.sector(1).is_ok());
    let f = j.sector(2).unwrap_err();
    assert_eq!(f.kind, batch_sealer::failure::FailureKind::Critical);
}

#[test]
fn the_pipeline_kind_is_named_batch() {
    let planner = batch_sealer::planner::BatchPlanner { batch_size: 2 };
    assert_eq!(planner.name(), "batch");
    let j = job(2);
    assert_eq!(j.planner(), "batch");
    // The ports handle is the injected one.
    assert!(!j.rpc().cancelled);
}

#[test]
fn planner_errors_classify_as_critical_and_rpc_errors_as_temporary() {
    assert_eq!(
        batch_sealer::failure::PlanError::UnexpectedStateEvent.to_failure().kind,
        batch_sealer::failure::FailureKind::Critical
    );
    assert_eq!(
        batch_sealer::failure::PlanError::StateUnchanged.to_failure().kind,
        batch_sealer::failure::FailureKind::Critical
    );
    let f = batch_sealer::failure::classify_rpc(batch_sealer::rpc::RpcError::new(
        "connection reset",
    ));
    assert_eq!(f.kind, batch_sealer::failure::FailureKind::Temporary);
    assert_eq!(f.message, "connection reset");
}
