//! A scripted implementation of the external ports: every operation answers
//! from a queue of prepared responses and records the waits it was asked
//! for. Constructing the gateway explicitly and passing it into the job is
//! the intended way to test the executor without a live sector manager.

use vstd::prelude::*;

use crate::rpc::{
    AcquireDealsSpec, AllocateSectorSpec, PollStateResp, PreCommitOnChainInfo, ProofOnChainInfo,
    RpcError, SealerPorts, SubmitResp, WaitSeedResp,
};
use crate::sectors::{
    AllocatedSector, C1Out, C2Out, DealInfo, Pc1Out, Pc2Out, PieceInfo, SectorId, Seed, Ticket,
};

verus! {

/// Pops the next scripted response; an exhausted queue answers with an RPC
/// error, which the executor classifies as temporary.
fn next_response<T>(q: &mut Vec<Result<T, RpcError>>) -> (r: Result<T, RpcError>)
    ensures
        old(q)@.len() > 0 ==> final(q)@ == old(q)@.skip(1) && r == old(q)@[0],
        old(q)@.len() == 0 ==> final(q)@ == old(q)@ && r is Err,
{
    if q.len() == 0 {
        Err(RpcError::new("script exhausted"))
    } else {
        q.remove(0)
    }
}

/// External ports that replay prepared responses, in order, one queue per
/// operation. `sleeps` records every wait the executor asked for;
/// `cancelled` makes every wait report cancellation.
#[derive(Debug)]
pub struct ScriptedPorts {
    pub allocations: Vec<Result<Vec<AllocatedSector>, RpcError>>,
    pub deal_lists: Vec<Result<Option<Vec<DealInfo>>, RpcError>>,
    pub tickets: Vec<Result<Ticket, RpcError>>,
    pub pre_commit_submissions: Vec<Result<SubmitResp, RpcError>>,
    pub pre_commit_polls: Vec<Result<PollStateResp, RpcError>>,
    pub persisted_checks: Vec<Result<bool, RpcError>>,
    pub seed_polls: Vec<Result<WaitSeedResp, RpcError>>,
    pub proof_submissions: Vec<Result<SubmitResp, RpcError>>,
    pub proof_polls: Vec<Result<PollStateResp, RpcError>>,
    pub piece_lists: Vec<Result<Vec<PieceInfo>, RpcError>>,
    pub tree_commitments: Vec<Result<Vec<u8>, RpcError>>,
    pub pc1_outputs: Vec<Result<Vec<Pc1Out>, RpcError>>,
    pub pc2_outputs: Vec<Result<Vec<Pc2Out>, RpcError>>,
    pub c1_outputs: Vec<Result<Vec<C1Out>, RpcError>>,
    pub c2_outputs: Vec<Result<C2Out, RpcError>>,
    pub persist_instances: Vec<Result<String, RpcError>>,
    pub sleeps: Vec<u64>,
    pub cancelled: bool,
}

impl ScriptedPorts {
    /// A script with no responses at all: every call answers an exhausted
    /// error, every wait elapses.
    pub fn new() -> (p: ScriptedPorts)
        ensures
            p.sleeps@.len() == 0,
            !p.cancelled,
    {
        ScriptedPorts {
            allocations: Vec::new(),
            deal_lists: Vec::new(),
            tickets: Vec::new(),
            pre_commit_submissions: Vec::new(),
            pre_commit_polls: Vec::new(),
            persisted_checks: Vec::new(),
            seed_polls: Vec::new(),
            proof_submissions: Vec::new(),
            proof_polls: Vec::new(),
            piece_lists: Vec::new(),
            tree_commitments: Vec::new(),
            pc1_outputs: Vec::new(),
            pc2_outputs: Vec::new(),
            c1_outputs: Vec::new(),
            c2_outputs: Vec::new(),
            persist_instances: Vec::new(),
            sleeps: Vec::new(),
            cancelled: false,
        }
    }
}

impl SealerPorts for ScriptedPorts {
    fn allocate_sectors_batch(
        &mut self,
        _spec: AllocateSectorSpec,
        _count: u32,
    ) -> Result<Vec<AllocatedSector>, RpcError> {
        next_response(&mut self.allocations)
    }

    fn acquire_deals(
        &mut self,
        _id: SectorId,
        _spec: AcquireDealsSpec,
    ) -> Result<Option<Vec<DealInfo>>, RpcError> {
        next_response(&mut self.deal_lists)
    }

    fn assign_ticket(&mut self, _id: SectorId) -> Result<Ticket, RpcError> {
        next_response(&mut self.tickets)
    }

    fn submit_pre_commit(
        &mut self,
        _sector: AllocatedSector,
        _info: PreCommitOnChainInfo,
        _reset: bool,
    ) -> Result<SubmitResp, RpcError> {
        next_response(&mut self.pre_commit_submissions)
    }

    fn poll_pre_commit_state(&mut self, _id: SectorId) -> Result<PollStateResp, RpcError> {
        next_response(&mut self.pre_commit_polls)
    }

    fn submit_persisted_ex(
        &mut self,
        _id: SectorId,
        _instance: String,
        _is_upgrade: bool,
    ) -> Result<bool, RpcError> {
        next_response(&mut self.persisted_checks)
    }

    fn wait_seed(&mut self, _id: SectorId) -> Result<WaitSeedResp, RpcError> {
        next_response(&mut self.seed_polls)
    }

    fn submit_proof(
        &mut self,
        _id: SectorId,
        _info: ProofOnChainInfo,
        _reset: bool,
    ) -> Result<SubmitResp, RpcError> {
        next_response(&mut self.proof_submissions)
    }

    fn poll_proof_state(&mut self, _id: SectorId) -> Result<PollStateResp, RpcError> {
        next_response(&mut self.proof_polls)
    }

    fn add_pieces(
        &mut self,
        _id: SectorId,
        _deals: Option<Vec<DealInfo>>,
    ) -> Result<Vec<PieceInfo>, RpcError> {
        next_response(&mut self.piece_lists)
    }

    fn build_tree_d(
        &mut self,
        _id: SectorId,
        _pieces: Vec<PieceInfo>,
    ) -> Result<Vec<u8>, RpcError> {
        next_response(&mut self.tree_commitments)
    }

    fn pc1(&mut self, _ticket: Ticket) -> Result<Vec<Pc1Out>, RpcError> {
        next_response(&mut self.pc1_outputs)
    }

    fn pc2(&mut self, _pc1_outs: Vec<Pc1Out>) -> Result<Vec<Pc2Out>, RpcError> {
        next_response(&mut self.pc2_outputs)
    }

    fn c1(&mut self, _seeds: Vec<Seed>) -> Result<Vec<C1Out>, RpcError> {
        next_response(&mut self.c1_outputs)
    }

    fn c2(&mut self, _id: SectorId, _c1out: C1Out) -> Result<C2Out, RpcError> {
        next_response(&mut self.c2_outputs)
    }

    fn persist_sector_files(&mut self, _id: SectorId) -> Result<String, RpcError> {
        next_response(&mut self.persist_instances)
    }

    fn wait_or_interrupted(&mut self, delay_secs: u64) -> bool {
        self.sleeps.push(delay_secs);
        !self.cancelled
    }
}

} // verus!
