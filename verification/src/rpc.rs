//! The interface to the external collaborators of one batch job: the
//! sector-manager RPC gateway, the proving backend, and the cancellable
//! sleep primitive. The library only ever talks to them through the
//! [`SealerPorts`] trait, so a driver injects concrete implementations
//! explicitly (no hidden global clients), and tests drive the executor with
//! a scripted implementation.

use vstd::prelude::*;

use crate::sectors::{
    AllocatedSector, C1Out, C2Out, DealInfo, Pc1Out, Pc2Out, PieceInfo, SectorId, Seed, Ticket,
};

verus! {

/// A transport-level RPC error. The gateway reports it verbatim; the failure
/// classifier decides its severity.
#[derive(Debug)]
pub struct RpcError {
    pub message: String,
}

impl RpcError {
    pub fn new(message: &str) -> (e: RpcError)
        ensures
            e.message@ == message@,
    {
        RpcError { message: String::from_str(message) }
    }
}

/// Filter for new sector assignments.
#[derive(Debug)]
pub struct AllocateSectorSpec {
    pub allowed_miners: Option<Vec<u64>>,
    pub allowed_proof_types: Option<Vec<u64>>,
}

/// Bounds for deal acquisition.
#[derive(Clone, Copy, Debug, PartialEq, Eq, Structural)]
pub struct AcquireDealsSpec {
    pub max_deals: Option<u32>,
    pub min_used_space: Option<u64>,
}

/// What the chain said about a submission.
#[derive(Clone, Copy, Debug, PartialEq, Eq, Structural)]
pub enum SubmitResult {
    Accepted,
    DuplicateSubmit,
    MismatchedSubmission,
    Rejected,
    FilesMissed,
}

/// Response to a pre-commit or proof submission.
#[derive(Debug)]
pub struct SubmitResp {
    pub res: SubmitResult,
    pub desc: Option<String>,
}

/// Confirmation status of a previously submitted transaction.
#[derive(Clone, Copy, Debug, PartialEq, Eq, Structural)]
pub enum OnChainState {
    Landed,
    NotFound,
    Failed,
    PermFailed,
    ShouldAbort,
    Pending,
    Packed,
}

/// Response to an on-chain state poll.
#[derive(Debug)]
pub struct PollStateResp {
    pub state: OnChainState,
    pub desc: Option<String>,
}

/// Response to a seed poll: either a seed, or an instruction to wait
/// `delay` seconds before asking again.
#[derive(Debug)]
pub struct WaitSeedResp {
    pub seed: Option<Seed>,
    pub should_wait: bool,
    pub delay: u64,
}

/// The pre-commit information that goes on chain.
#[derive(Debug)]
pub struct PreCommitOnChainInfo {
    pub comm_r: Vec<u8>,
    pub comm_d: Vec<u8>,
    pub ticket: Ticket,
    pub deals: Vec<u64>,
}

/// The proof information that goes on chain.
#[derive(Debug)]
pub struct ProofOnChainInfo {
    pub proof: Vec<u8>,
}

/// Sealing configuration for one worker thread, fixed for the lifetime of a
/// job.
#[derive(Debug)]
pub struct SealingConfig {
    pub allowed_miners: Vec<u64>,
    pub allowed_proof_types: Vec<u64>,
    /// When set, sectors with no real data (committed capacity) are not
    /// sealed.
    pub disable_cc: bool,
    /// When unset, deal acquisition is skipped entirely.
    pub enable_deals: bool,
    pub max_deals: Option<u32>,
    pub min_deal_space: Option<u64>,
    /// Seconds between two polls of the same on-chain state.
    pub rpc_polling_interval: u64,
    /// When set, proof confirmation polling is skipped.
    pub ignore_proof_check: bool,
    /// How many consecutive pending polls one action tolerates before it
    /// reports a temporary failure and lets the driver retry the state.
    pub max_poll_rounds: usize,
}

/// Everything external a batch job can ask for. The trait promises nothing
/// about the answers: every function of this library is verified for every
/// possible response, and the per-response decisions are proved exact in the
/// executor's decision functions.
///
/// The methods mirror the sector-manager gateway operations, the proving
/// backend operations, and the one cancellable wait primitive.
pub trait SealerPorts {
    /// Requests up to `count` fresh sector assignments.
    fn allocate_sectors_batch(
        &mut self,
        spec: AllocateSectorSpec,
        count: u32,
    ) -> Result<Vec<AllocatedSector>, RpcError>;

    /// Requests deals for a sector, bounded by `spec`.
    fn acquire_deals(
        &mut self,
        id: SectorId,
        spec: AcquireDealsSpec,
    ) -> Result<Option<Vec<DealInfo>>, RpcError>;

    /// Requests a fresh randomness ticket for a sector.
    fn assign_ticket(&mut self, id: SectorId) -> Result<Ticket, RpcError>;

    /// Submits the pre-commit on-chain information; `reset` flags a
    /// resubmission.
    fn submit_pre_commit(
        &mut self,
        sector: AllocatedSector,
        info: PreCommitOnChainInfo,
        reset: bool,
    ) -> Result<SubmitResp, RpcError>;

    /// Polls the confirmation state of a submitted pre-commit.
    fn poll_pre_commit_state(&mut self, id: SectorId) -> Result<PollStateResp, RpcError>;

    /// Asks the sector manager to confirm that sealed output landed in the
    /// given storage instance and is retrievable.
    fn submit_persisted_ex(
        &mut self,
        id: SectorId,
        instance: String,
        is_upgrade: bool,
    ) -> Result<bool, RpcError>;

    /// Polls for seed availability.
    fn wait_seed(&mut self, id: SectorId) -> Result<WaitSeedResp, RpcError>;

    /// Submits the proof on-chain information; `reset` flags a resubmission.
    fn submit_proof(
        &mut self,
        id: SectorId,
        info: ProofOnChainInfo,
        reset: bool,
    ) -> Result<SubmitResp, RpcError>;

    /// Polls the confirmation state of a submitted proof.
    fn poll_proof_state(&mut self, id: SectorId) -> Result<PollStateResp, RpcError>;

    /// Proving backend: writes the sector's pieces (padding where there are
    /// no deals) and reports them.
    fn add_pieces(
        &mut self,
        id: SectorId,
        deals: Option<Vec<DealInfo>>,
    ) -> Result<Vec<PieceInfo>, RpcError>;

    /// Proving backend: builds the data tree over the pieces and returns its
    /// commitment.
    fn build_tree_d(&mut self, id: SectorId, pieces: Vec<PieceInfo>) -> Result<Vec<u8>, RpcError>;

    /// Proving backend: first pre-commit phase over the whole batch.
    fn pc1(&mut self, ticket: Ticket) -> Result<Vec<Pc1Out>, RpcError>;

    /// Proving backend: second pre-commit phase over the whole batch.
    fn pc2(&mut self, pc1_outs: Vec<Pc1Out>) -> Result<Vec<Pc2Out>, RpcError>;

    /// Proving backend: first commit phase over the whole batch, one seed
    /// per sector.
    fn c1(&mut self, seeds: Vec<Seed>) -> Result<Vec<C1Out>, RpcError>;

    /// Proving backend: second commit phase for one sector.
    fn c2(&mut self, id: SectorId, c1out: C1Out) -> Result<C2Out, RpcError>;

    /// Persists the sector's sealed files and returns the name of the
    /// storage instance they landed in.
    fn persist_sector_files(&mut self, id: SectorId) -> Result<String, RpcError>;

    /// Sleeps `delay_secs` seconds unless the owning worker raises its stop
    /// signal first; returns whether the full delay elapsed (`false` means
    /// the wait was cancelled).
    fn wait_or_interrupted(&mut self, delay_secs: u64) -> bool;
}

} // verus!
