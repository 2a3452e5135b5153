use batch_sealer::job::{Job, WorkerIdentifier};
use batch_sealer::planner::BatchPlanner;
use batch_sealer::rpc::{
    OnChainState, PollStateResp, SealingConfig, SubmitResp, SubmitResult, WaitSeedResp,
};
use batch_sealer::scripted::ScriptedPorts;
use batch_sealer::sectors::{
    AllocatedSector, C1Out, C2Out, Pc1Out, Pc2Out, PieceInfo, SectorId, Sectors, SectorsDoc, Seed,
    Ticket,
};
use batch_sealer::state::State;

#[test]
fn a_scripted_batch_runs_from_empty_to_finished() {
    let mut ports = ScriptedPorts::new();
    ports.allocations = vec![Ok(vec![AllocatedSector {
        id: SectorId { miner: 1, number: 10 },
        proof_type: 8,
    }])];
    ports.piece_lists = vec![Ok(vec![PieceInfo { size: 2048, commitment: vec![1; 32] }])];
    ports.tree_commitments = vec![Ok(vec![2; 32])];
    ports.tickets = vec![Ok(Ticket { ticket: vec![3; 32], epoch: 40 })];
    ports.pc1_outputs = vec![Ok(vec![Pc1Out { out: vec![4; 8] }])];
    ports.pc2_outputs = vec![Ok(vec![Pc2Out { comm_r: vec![5; 32], comm_d: vec![6; 32] }])];
    ports.pre_commit_submissions = vec![Ok(SubmitResp { res: SubmitResult::Accepted, desc: None })];
    ports.pre_commit_polls = vec![Ok(PollStateResp { state: OnChainState::Landed, desc: None })];
    ports.persist_instances = vec![Ok("store-1".to_string())];
    ports.persisted_checks = vec![Ok(true), Ok(true)];
    ports.seed_polls = vec![Ok(WaitSeedResp {
        seed: Some(Seed { seed: vec![7; 32], epoch: 55 }),
        should_wait: false,
        delay: 0,
    })];
    ports.c1_outputs = vec![Ok(vec![C1Out { out: vec![8; 8] }])];
    ports.c2_outputs = vec![Ok(C2Out { proof: vec![9; 192] })];
    ports.proof_submissions = vec![Ok(SubmitResp { res: SubmitResult::Accepted, desc: None })];
    ports.proof_polls = vec![Ok(PollStateResp { state: OnChainState::Landed, desc: None })];

    let config = SealingConfig {
        allowed_miners: vec![1],
        allowed_proof_types: vec![8],
        disable_cc: false,
        enable_deals: false,
        max_deals: None,
        min_deal_space: None,
        rpc_polling_interval: 1,
        ignore_proof_check: false,
        max_poll_rounds: 8,
    };
    let mut job = Job {
        sectors: SectorsDoc::new(Sectors::new(1)),
        ports,
        config,
        ident: WorkerIdentifier { owner: "t01".to_string(), instance: "w".to_string() },
    };
    let planner = BatchPlanner { batch_size: 1 };

    let mut visited = vec![job.sectors.inner.state];
    for _ in 0..50 {
        let event = match planner.exec(&mut job).expect("no failure in a scripted happy path") {
            None => break,
            Some(ev) => ev,
        };
        let state = job.sectors.inner.state;
        let planned = planner.plan(&event, &state).expect("every event is declared");
        event.apply(planned, &mut job).expect("every transition makes progress");
        assert!(job.sectors.is_dirty());
        job.sectors.commit();
        visited.push(job.sectors.inner.state);
    }

    assert_eq!(job.sectors.inner.state, State::Finished { index: 0 });
    assert_eq!(
        visited,
        vec![
            State::Empty,
            State::Allocated,
            State::DealsAcquired { index: 1 },
            State::PieceAdded { index: 0 },
            State::TreeDBuilt { index: 0 },
            State::TicketAssigned,
            State::PC1Done,
            State::PC2Done,
            State::PCSubmitted { index: 0 },
            State::PCLanded { index: 0 },
            State::Persisted { index: 0 },
            State::PersistanceSubmitted { index: 0 },
            State::SeedAssigned { index: 0 },
            State::C1Done,
            State::C2Done { index: 0 },
            State::ProofSubmitted { index: 0 },
            State::Finished { index: 0 },
        ]
    );
    // The record now carries everything the pipeline accumulated.
    let phases = &job.sectors.inner.sectors[0].phases;
    assert!(phases.ticket.is_some());
    assert!(phases.pc1out.is_some());
    assert!(phases.pc2out.is_some());
    assert!(phases.c1out.is_some());
    assert!(phases.c2out.is_some());
    assert_eq!(phases.persist_instance.as_deref(), Some("store-1"));
    assert_eq!(phases.seed.as_ref().unwrap().epoch, 55);
}
