//! The per-state executor: for the current pipeline state it performs the
//! one side-effecting action (an RPC call, a polling loop, or a wait) that
//! produces the next event. The choices made on each external response are
//! factored into decision functions with exact contracts; the action
//! functions are verified for every possible response.

use vstd::prelude::*;

use crate::failure::{classify_rpc, with_detail, with_detail_spec, Failure, FailureKind};
use crate::job::Job;
use crate::planner::{Action, BatchPlanner};
use crate::rpc::{
    AcquireDealsSpec, AllocateSectorSpec, OnChainState, PreCommitOnChainInfo, ProofOnChainInfo,
    RpcError, SealerPorts, SubmitResult, WaitSeedResp,
};
use crate::sectors::{
    clone_bytes, copy_deals, copy_pieces, copy_vec, dup_ticket, C1Out, Pc1Out, Seed,
};
use crate::state::{ticket_like, Event};
use crate::SUBMIT_FAILED_COOLDOWN_SECS;

verus! {

/// The action functions never touch the batch record, the configuration or
/// the worker identity; only the external ports advance (they may consume
/// scripted responses, sockets, and so on).
pub open spec fn preserves_record<P>(o: Job<P>, f: Job<P>) -> bool {
    &&& f.sectors == o.sectors
    &&& f.config == o.config
    &&& f.ident == o.ident
}

/// What a submission result means for sector `index`: an already-submitted
/// answer is success exactly like an accepted one (submission is
/// idempotent); a mismatched submission or missing files can never succeed;
/// a rejection abandons the sector.
pub open spec fn spec_submit_outcome(index: usize, res: SubmitResult, for_proof: bool) -> Result<
    Event,
    FailureKind,
> {
    match res {
        SubmitResult::Accepted | SubmitResult::DuplicateSubmit => Ok(
            if for_proof {
                (Event::SubmitProof { index })
            } else {
                (Event::SubmitPC { index })
            },
        ),
        SubmitResult::MismatchedSubmission => Err(FailureKind::Permanent),
        SubmitResult::Rejected => Err(FailureKind::Abort),
        SubmitResult::FilesMissed => Err(FailureKind::Permanent),
    }
}

/// Submission is idempotent: a `DuplicateSubmit` answer produces exactly the
/// success event an `Accepted` answer produces, for any sector index and for
/// both the pre-commit and the proof submission.
pub proof fn lemma_duplicate_submit_idempotent(index: usize, for_proof: bool)
    ensures
        spec_submit_outcome(index, SubmitResult::DuplicateSubmit, for_proof)
            == spec_submit_outcome(index, SubmitResult::Accepted, for_proof),
{
}

/// The base text of a failed submission's report.
pub open spec fn submit_failure_base(res: SubmitResult, for_proof: bool) -> Seq<char> {
    match res {
        SubmitResult::MismatchedSubmission => "submission mismatched with the chain-visible state"@,
        SubmitResult::Rejected => "submission rejected by the chain"@,
        SubmitResult::FilesMissed => if for_proof {
            "required files missed at proof submission"@
        } else {
            "required files missed at pre-commit submission"@
        },
        _ => ""@,
    }
}

/// Interprets a submission result for sector `index`; exactly
/// [`spec_submit_outcome`], and a failure reports the full context: the base
/// text plus the description the chain gave.
pub fn interpret_submit_result(
    index: usize,
    res: SubmitResult,
    desc: Option<String>,
    for_proof: bool,
) -> (r: Result<Event, Failure>)
    ensures
        match r {
            Ok(ev) => spec_submit_outcome(index, res, for_proof) == Ok::<Event, FailureKind>(ev),
            Err(f) => spec_submit_outcome(index, res, for_proof) == Err::<Event, FailureKind>(
                f.kind,
            ) && f.message@ == with_detail_spec(submit_failure_base(res, for_proof), desc),
        },
{
    match res {
        SubmitResult::Accepted | SubmitResult::DuplicateSubmit => Ok(
            if for_proof {
                Event::SubmitProof { index }
            } else {
                Event::SubmitPC { index }
            },
        ),
        SubmitResult::MismatchedSubmission => Err(
            Failure {
                kind: FailureKind::Permanent,
                message: with_detail("submission mismatched with the chain-visible state", desc),
            },
        ),
        SubmitResult::Rejected => Err(
            Failure {
                kind: FailureKind::Abort,
                message: with_detail("submission rejected by the chain", desc),
            },
        ),
        SubmitResult::FilesMissed => Err(
            Failure {
                kind: FailureKind::Permanent,
                message: with_detail(
                    if for_proof {
                        "required files missed at proof submission"
                    } else {
                        "required files missed at pre-commit submission"
                    },
                    desc,
                ),
            },
        ),
    }
}

/// What one on-chain poll outcome asks the executor to do.
#[derive(Clone, Copy, Debug, PartialEq, Eq, Structural)]
pub enum PollDecision {
    /// The submission landed; emit the success event.
    Confirmed,
    /// Still pending or packed; sleep for the polling interval and poll
    /// again.
    Wait,
    /// The submission failed on chain; cool down and ask for a resubmission.
    Resubmit,
    /// No on-chain info found; the sector can never succeed.
    Missing,
    /// Permanently failed on chain.
    Fatal,
    /// The chain flagged the sector to be abandoned.
    AbortSector,
}

/// The shared on-chain polling protocol, one row per poll outcome.
pub open spec fn spec_decide_poll(st: OnChainState) -> PollDecision {
    match st {
        OnChainState::Landed => PollDecision::Confirmed,
        OnChainState::NotFound => PollDecision::Missing,
        OnChainState::Failed => PollDecision::Resubmit,
        OnChainState::PermFailed => PollDecision::Fatal,
        OnChainState::ShouldAbort => PollDecision::AbortSector,
        OnChainState::Pending | OnChainState::Packed => PollDecision::Wait,
    }
}

/// Decides one polling round; exactly [`spec_decide_poll`].
pub fn decide_poll(st: OnChainState) -> (d: PollDecision)
    ensures
        d == spec_decide_poll(st),
{
    match st {
        OnChainState::Landed => PollDecision::Confirmed,
        OnChainState::NotFound => PollDecision::Missing,
        OnChainState::Failed => PollDecision::Resubmit,
        OnChainState::PermFailed => PollDecision::Fatal,
        OnChainState::ShouldAbort => PollDecision::AbortSector,
        OnChainState::Pending | OnChainState::Packed => PollDecision::Wait,
    }
}

/// What one seed-poll response asks the executor to do.
#[derive(Debug)]
pub enum SeedDecision {
    /// The server supplied the seed.
    Assign(Seed),
    /// Neither a seed nor a usable delay: a malformed, empty response; a
    /// temporary failure.
    Invalid,
    /// Wait this many seconds and ask again.
    Delay(u64),
}

/// Decides one seed-poll round. A response carrying a seed assigns it; one
/// carrying neither a seed nor a positive wait instruction (`should_wait`
/// unset, or a zero delay) is an invalid empty response; otherwise the
/// executor waits the server-given delay.
pub fn decide_wait_seed(resp: WaitSeedResp) -> (d: SeedDecision)
    ensures
        match d {
            SeedDecision::Assign(s) => resp.seed == Some(s),
            SeedDecision::Invalid => resp.seed is None && (!resp.should_wait || resp.delay == 0),
            SeedDecision::Delay(delay) => resp.seed is None && resp.should_wait && resp.delay
                == delay && delay > 0,
        },
{
    match resp.seed {
        Some(seed) => SeedDecision::Assign(seed),
        None => {
            if !resp.should_wait || resp.delay == 0 {
                SeedDecision::Invalid
            } else {
                SeedDecision::Delay(resp.delay)
            }
        },
    }
}

/// Interprets an allocation response: a transport failure or an empty
/// answer leaves the batch idle (allocation is retried later, not an
/// error); a non-empty list is passed through verbatim as the allocation
/// event.
pub fn interpret_allocation(resp: Result<Vec<crate::sectors::AllocatedSector>, RpcError>) -> (ev:
    Event)
    ensures
        (resp is Err ==> ev == Event::Idle),
        (resp matches Ok(v) ==> (if v@.len() == 0 {
            ev == Event::Idle
        } else {
            ev == Event::Allocate(v)
        })),
{
    match resp {
        Ok(v) => {
            if v.len() == 0 {
                Event::Idle
            } else {
                Event::Allocate(v)
            }
        },
        Err(_) => Event::Idle,
    }
}

/// How many deals a deal-acquisition response carries.
pub open spec fn spec_deal_count(deals: Option<Vec<crate::sectors::DealInfo>>) -> int {
    match deals {
        Some(d) => d@.len() as int,
        None => 0,
    }
}

/// Interprets a deal-acquisition response for sector `index`: the response's
/// deals are taken verbatim when there are any, or when committed-capacity
/// sealing is disallowed (the sector then seals without real data);
/// otherwise the batch stays idle and retries later.
pub fn interpret_deals(
    index: usize,
    disable_cc: bool,
    deals: Option<Vec<crate::sectors::DealInfo>>,
) -> (ev: Event)
    ensures
        ((disable_cc || spec_deal_count(deals) > 0) ==> ev == (Event::AcquireDeals {
            index,
            deals,
        })),
        (!(disable_cc || spec_deal_count(deals) > 0) ==> ev == Event::Idle),
{
    let deals_count = match &deals {
        Some(d) => d.len(),
        None => 0,
    };
    if disable_cc || deals_count > 0 {
        Event::AcquireDeals { index, deals }
    } else {
        Event::Idle
    }
}

/// The base text of a failed poll's report.
pub open spec fn poll_failure_base(d: PollDecision, for_proof: bool) -> Seq<char> {
    if for_proof {
        match d {
            PollDecision::Missing => "proof on-chain info not found"@,
            PollDecision::Fatal => "proof on-chain info permanent failed"@,
            PollDecision::AbortSector => "sector will not get on-chain"@,
            PollDecision::Wait => "proof on-chain info still pending"@,
            _ => ""@,
        }
    } else {
        match d {
            PollDecision::Missing => "pre commit on-chain info not found"@,
            PollDecision::Fatal => "pre commit on-chain info permanent failed"@,
            PollDecision::AbortSector => "pre commit info will not get on-chain"@,
            PollDecision::Wait => "pre commit on-chain info still pending"@,
            _ => ""@,
        }
    }
}

/// Interprets a terminal polling decision for sector `index`, the shared
/// second half of the on-chain polling protocol: a confirmation emits the
/// success event (the check event for a pre-commit, the finish event for a
/// proof), a chain-side failure asks for a resubmission, a missing or
/// permanently failed submission can never succeed, an abort flag abandons
/// the sector, and a still-pending decision is a temporary condition the
/// driver retries. Failures report the description the chain gave.
pub fn interpret_poll(index: usize, d: PollDecision, desc: Option<String>, for_proof: bool) -> (r:
    Result<Event, Failure>)
    ensures
        d == PollDecision::Confirmed ==> r == Ok::<Event, Failure>(
            if for_proof {
                (Event::Finish { index })
            } else {
                (Event::CheckPC { index })
            },
        ),
        d == PollDecision::Resubmit ==> r == Ok::<Event, Failure>(
            if for_proof {
                (Event::ReSubmitProof { index })
            } else {
                (Event::ReSubmitPC { index })
            },
        ),
        (d == PollDecision::Missing || d == PollDecision::Fatal) ==> (r matches Err(f) && f.kind
            == FailureKind::Permanent && f.message@ == with_detail_spec(
            poll_failure_base(d, for_proof),
            desc,
        )),
        d == PollDecision::AbortSector ==> (r matches Err(f) && f.kind == FailureKind::Abort
            && f.message@ == with_detail_spec(poll_failure_base(d, for_proof), desc)),
        d == PollDecision::Wait ==> (r matches Err(f) && f.kind == FailureKind::Temporary
            && f.message@ == with_detail_spec(poll_failure_base(d, for_proof), desc)),
{
    match d {
        PollDecision::Confirmed => Ok(
            if for_proof {
                Event::Finish { index }
            } else {
                Event::CheckPC { index }
            },
        ),
        PollDecision::Resubmit => Ok(
            if for_proof {
                Event::ReSubmitProof { index }
            } else {
                Event::ReSubmitPC { index }
            },
        ),
        PollDecision::Missing => Err(
            Failure {
                kind: FailureKind::Permanent,
                message: with_detail(
                    if for_proof {
                        "proof on-chain info not found"
                    } else {
                        "pre commit on-chain info not found"
                    },
                    desc,
                ),
            },
        ),
        PollDecision::Fatal => Err(
            Failure {
                kind: FailureKind::Permanent,
                message: with_detail(
                    if for_proof {
                        "proof on-chain info permanent failed"
                    } else {
                        "pre commit on-chain info permanent failed"
                    },
                    desc,
                ),
            },
        ),
        PollDecision::AbortSector => Err(
            Failure {
                kind: FailureKind::Abort,
                message: with_detail(
                    if for_proof {
                        "sector will not get on-chain"
                    } else {
                        "pre commit info will not get on-chain"
                    },
                    desc,
                ),
            },
        ),
        PollDecision::Wait => Err(
            Failure {
                kind: FailureKind::Temporary,
                message: with_detail(
                    if for_proof {
                        "proof on-chain info still pending"
                    } else {
                        "pre commit on-chain info still pending"
                    },
                    desc,
                ),
            },
        ),
    }
}

/// Interprets a seed-poll decision for sector `index`: a supplied seed is
/// assigned verbatim; an invalid empty response is a temporary failure; a
/// delay instruction that reaches this point (the polling budget ran out) is
/// a temporary, still-pending condition.
pub fn interpret_seed_decision(index: usize, d: SeedDecision) -> (r: Result<Event, Failure>)
    ensures
        (d matches SeedDecision::Assign(s) ==> r == Ok::<Event, Failure>(
            (Event::AssignSeed { index, seed: s }),
        )),
        (d is Invalid ==> (r matches Err(f) && f.kind == FailureKind::Temporary && f.message@
            == "invalid empty wait_seed response"@)),
        (d is Delay ==> (r matches Err(f) && f.kind == FailureKind::Temporary && f.message@
            == "seed still pending"@)),
{
    match d {
        SeedDecision::Assign(seed) => Ok(Event::AssignSeed { index, seed }),
        SeedDecision::Invalid => Err(Failure::temporary("invalid empty wait_seed response")),
        SeedDecision::Delay(_) => Err(Failure::temporary("seed still pending")),
    }
}

/// Interprets the sector manager's confirmation that sector `index`'s sealed
/// files are retrievable: a positive answer emits the success event (the
/// persist event naming the storage instance when one is given, the
/// persistence-submission event otherwise); a negative answer means the
/// files are persisted but unavailable for the sealer, which the sector can
/// never recover from.
pub fn interpret_persisted_check(index: usize, instance: Option<String>, checked: bool) -> (r:
    Result<Event, Failure>)
    ensures
        (checked ==> (instance matches Some(i) ==> r == Ok::<Event, Failure>(
            (Event::Persist { instance: i, index }),
        ))),
        ((checked && instance is None) ==> r == Ok::<Event, Failure>(
            (Event::SubmitPersistance { index }),
        )),
        (!checked ==> (r matches Err(f) && f.kind == FailureKind::Permanent && f.message@
            == "sector files are persisted but unavailable for sealer"@)),
{
    if checked {
        match instance {
            Some(i) => Ok(Event::Persist { instance: i, index }),
            None => Ok(Event::SubmitPersistance { index }),
        }
    } else {
        Err(Failure::permanent("sector files are persisted but unavailable for sealer"))
    }
}

/// The events one executor action may legitimately produce, given the batch
/// length (deal acquisition short-circuits to the batch length when deals
/// are disabled).
pub open spec fn event_matches_action(a: Action, ev: Event, batch_len: int) -> bool {
    match a {
        Action::Allocate => ev == Event::Idle || (ev matches Event::Allocate(v) && v@.len() > 0),
        Action::AcquireDeals(i) => ev == Event::Idle || (ev matches Event::AcquireDeals {
            index,
            ..
        } && (index == i || index as int == batch_len)),
        Action::AddPieces(i) => ev matches Event::AddPiece { index, .. } && index == i,
        Action::BuildTreeD(i) => ev == (Event::BuildTreeD { index: i }),
        Action::AssignTicket => ev matches Event::AssignTicket(_),
        Action::PC1 => ev matches Event::PC1(..),
        Action::PC2 => ev matches Event::PC2(..),
        Action::SubmitPreCommit(i) => ev == (Event::SubmitPC { index: i }),
        Action::CheckPreCommit(i) => ev == (Event::CheckPC { index: i }) || ev == (
        Event::ReSubmitPC { index: i }),
        Action::PersistFiles(i) => ev matches Event::Persist { index, .. } && index == i,
        Action::SubmitPersisted(i) => ev == (Event::SubmitPersistance { index: i }),
        Action::WaitSeed(i) => ev matches Event::AssignSeed { index, .. } && index == i,
        Action::Commit1 => ev matches Event::C1(_),
        Action::Commit2(i) => ev matches Event::C2 { index, .. } && index == i,
        Action::SubmitProof(i) => ev == (Event::SubmitProof { index: i }),
        Action::CheckProof(i) => ev == (Event::Finish { index: i }) || ev == (
        Event::ReSubmitProof { index: i }),
        Action::Done => false,
        Action::Abort => false,
    }
}

/// The per-phase executor. Its associated functions each perform one
/// action's external work on the job and report the reached event, or a
/// classified failure.
pub struct BatchSealer;

impl BatchSealer {
    /// Requests up to `batch_size` new sector assignments. An RPC failure or
    /// an empty answer is not an error: the batch stays idle and retries
    /// later.
    pub fn allocate<P: SealerPorts>(job: &mut Job<P>) -> (r: Result<Event, Failure>)
        requires
            old(job).wf(),
        ensures
            preserves_record(*old(job), *final(job)),
            r is Ok,
            (r matches Ok(ev) ==> ev == Event::Idle || (ev matches Event::Allocate(v) && v@.len()
                > 0)),
    {
        let spec = AllocateSectorSpec {
            allowed_miners: Some(copy_vec(&job.config.allowed_miners)),
            allowed_proof_types: Some(copy_vec(&job.config.allowed_proof_types)),
        };
        let count = job.sectors.inner.batch_size as u32;
        let resp = job.ports.allocate_sectors_batch(spec, count);
        Ok(interpret_allocation(resp))
    }

    /// Requests deals for sector `index`. With deal sealing disabled the
    /// whole phase short-circuits: to idle when committed-capacity sealing
    /// is disallowed too, otherwise to an empty-deals event at the batch
    /// length that skips the remaining per-sector rounds. Zero deals with
    /// committed capacity disallowed stays idle.
    pub fn acquire_deals<P: SealerPorts>(job: &mut Job<P>, index: usize) -> (r: Result<
        Event,
        Failure,
    >)
        ensures
            preserves_record(*old(job), *final(job)),
            (r matches Ok(ev) ==> ev == Event::Idle || (ev matches Event::AcquireDeals {
                index: i2,
                deals,
            } && (i2 == index || i2 as int == old(job).sectors.inner.sectors@.len()) && (old(
                job,
            ).config.disable_cc || (deals matches Some(d) && d@.len() > 0) || i2 as int == old(
                job,
            ).sectors.inner.sectors@.len()))),
            !old(job).config.enable_deals ==> (r matches Ok(ev) && ev == (if old(
                job,
            ).config.disable_cc {
                Event::Idle
            } else {
                (Event::AcquireDeals {
                    index: old(job).sectors.inner.sectors@.len() as usize,
                    deals: None,
                })
            })),
            (old(job).config.enable_deals && index >= old(job).sectors.inner.sectors@.len()) ==> (
            r matches Err(f) && f.kind == FailureKind::Critical),
            (old(job).config.enable_deals && index < old(job).sectors.inner.sectors@.len() && old(
                job,
            ).sectors.inner.sectors@[index as int].base is None) ==> (r matches Err(f) && f.kind
                == FailureKind::Critical),
            (r matches Err(f) ==> (f.kind == FailureKind::Critical || f.kind
                == FailureKind::Temporary)),
            (r matches Err(f) ==> (f.kind == FailureKind::Critical ==> (old(job).config.enable_deals && (index >= old(job).sectors.inner.sectors@.len() || old(
                job,
            ).sectors.inner.sectors@[index as int].base is None)))),
    {
        let disable_cc = job.config.disable_cc;
        if !job.config.enable_deals {
            return Ok(
                if disable_cc {
                    Event::Idle
                } else {
                    Event::AcquireDeals { index: job.sectors.inner.sectors.len(), deals: None }
                },
            );
        }
        let spec = AcquireDealsSpec {
            max_deals: job.config.max_deals,
            min_used_space: job.config.min_deal_space,
        };
        let sector_id = match Self::sector_id(job, index) {
            Ok(id) => id,
            Err(f) => {
                return Err(f);
            },
        };
        let deals = match job.ports.acquire_deals(sector_id, spec) {
            Ok(d) => d,
            Err(e) => {
                return Err(classify_rpc(e));
            },
        };
        Ok(interpret_deals(index, disable_cc, deals))
    }

    /// The sector's on-chain identity, or the critical failure for a missing
    /// index or an unallocated sector.
    fn sector_id<P>(job: &Job<P>, index: usize) -> (r: Result<crate::sectors::SectorId, Failure>)
        ensures
            match r {
                Ok(id) => index < job.sectors.inner.sectors@.len() && (
                job.sectors.inner.sectors@[index as int].base matches Some(b) && b.allocated.id
                    == id),
                Err(f) => f.kind == FailureKind::Critical && (index >= job.sectors.inner.sectors@.len()
                    || job.sectors.inner.sectors@[index as int].base is None),
            },
    {
        let sector = match job.sector(index) {
            Ok(s) => s,
            Err(f) => {
                return Err(f);
            },
        };
        match &sector.base {
            Some(b) => Ok(b.allocated.id),
            None => Err(Failure::critical("sector base required")),
        }
    }

    /// Proving backend: writes the sector's pieces from its deals (padding
    /// for committed capacity) and reports them.
    pub fn add_pieces<P: SealerPorts>(job: &mut Job<P>, index: usize) -> (r: Result<
        Event,
        Failure,
    >)
        ensures
            preserves_record(*old(job), *final(job)),
            (r matches Ok(ev) ==> ev matches Event::AddPiece { index: i2, .. } && i2 == index),
            ((index >= old(job).sectors.inner.sectors@.len() || old(
                job,
            ).sectors.inner.sectors@[index as int].base is None) ==> (r matches Err(f) && f.kind
                == FailureKind::Critical)),
            (r matches Err(f) ==> (f.kind == FailureKind::Critical || f.kind
                == FailureKind::Temporary)),
            (r matches Err(f) ==> (f.kind == FailureKind::Critical ==> (index >= old(job).sectors.inner.sectors@.len() || old(
                job,
            ).sectors.inner.sectors@[index as int].base is None))),
    {
        let sector_id = match Self::sector_id(job, index) {
            Ok(id) => id,
            Err(f) => {
                return Err(f);
            },
        };
        let deals = copy_deals(&job.sectors.inner.sectors[index].deals);
        match job.ports.add_pieces(sector_id, deals) {
            Ok(pieces) => Ok(Event::AddPiece { index, pieces }),
            Err(e) => Err(classify_rpc(e)),
        }
    }

    /// Proving backend: builds the data tree over the sector's pieces.
    pub fn build_tree_d<P: SealerPorts>(job: &mut Job<P>, index: usize) -> (r: Result<
        Event,
        Failure,
    >)
        ensures
            preserves_record(*old(job), *final(job)),
            (r matches Ok(ev) ==> ev == (Event::BuildTreeD { index })),
            ((index >= old(job).sectors.inner.sectors@.len() || old(
                job,
            ).sectors.inner.sectors@[index as int].base is None) ==> (r matches Err(f) && f.kind
                == FailureKind::Critical)),
            ((index < old(job).sectors.inner.sectors@.len() && old(
                job,
            ).sectors.inner.sectors@[index as int].phases.pieces is None) ==> (r matches Err(f)
                && f.kind == FailureKind::Critical)),
            (r matches Err(f) ==> (f.kind == FailureKind::Critical || f.kind
                == FailureKind::Temporary)),
            (r matches Err(f) ==> (f.kind == FailureKind::Critical ==> (index >= old(job).sectors.inner.sectors@.len() || old(
                job,
            ).sectors.inner.sectors@[index as int].base is None || old(
                job,
            ).sectors.inner.sectors@[index as int].phases.pieces is None))),
    {
        let sector_id = match Self::sector_id(job, index) {
            Ok(id) => id,
            Err(f) => {
                return Err(f);
            },
        };
        let pieces = match &job.sectors.inner.sectors[index].phases.pieces {
            Some(p) => copy_pieces(p),
            None => {
                return Err(Failure::critical("pieces required"));
            },
        };
        match job.ports.build_tree_d(sector_id, pieces) {
            Ok(_commitment) => Ok(Event::BuildTreeD { index }),
            Err(e) => Err(classify_rpc(e)),
        }
    }

    /// Assigns the batch's randomness ticket. A previously persisted ticket
    /// is reused (idempotent resume after a restart); only a batch without
    /// one asks the sector manager for fresh randomness.
    pub fn assign_ticket<P: SealerPorts>(job: &mut Job<P>) -> (r: Result<Event, Failure>)
        ensures
            preserves_record(*old(job), *final(job)),
            (r matches Ok(ev) ==> ev matches Event::AssignTicket(_)),
            ({
                let sectors = old(job).sectors.inner.sectors@;
                (sectors.len() > 0 && sectors[0].base is Some && sectors[0].phases.ticket
                    is Some) ==> r is Ok
            }),
            (r matches Ok(ev) ==> (ev matches Event::AssignTicket(t) ==> (old(
                job,
            ).sectors.inner.sectors@[0].phases.ticket matches Some(t0) ==> ticket_like(t, t0)))),
            ((old(job).sectors.inner.sectors@.len() == 0 || old(
                job,
            ).sectors.inner.sectors@[0].base is None) ==> (r matches Err(f) && f.kind
                == FailureKind::Critical)),
            (r matches Err(f) ==> (f.kind == FailureKind::Critical || f.kind
                == FailureKind::Temporary)),
            (r matches Err(f) ==> (f.kind == FailureKind::Critical ==> (old(job).sectors.inner.sectors@.len() == 0 || old(
                job,
            ).sectors.inner.sectors@[0].base is None))),
    {
        let sector_id = match Self::sector_id(job, 0) {
            Ok(id) => id,
            Err(f) => {
                return Err(f);
            },
        };
        match &job.sectors.inner.sectors[0].phases.ticket {
            Some(t) => {
                // Reuse the existing ticket when rebuilding the batch.
                let t = dup_ticket(t);
                Ok(Event::AssignTicket(t))
            },
            None => {
                match job.ports.assign_ticket(sector_id) {
                    Ok(t) => Ok(Event::AssignTicket(t)),
                    Err(e) => Err(classify_rpc(e)),
                }
            },
        }
    }

    /// Proving backend: first pre-commit phase over the whole batch, driven
    /// by the assigned ticket.
    pub fn pc1<P: SealerPorts>(job: &mut Job<P>) -> (r: Result<Event, Failure>)
        ensures
            preserves_record(*old(job), *final(job)),
            (r matches Ok(ev) ==> ev matches Event::PC1(..)),
            (r is Ok ==> old(job).sectors.inner.sectors@.len() > 0 && old(
                job,
            ).sectors.inner.sectors@[0].phases.ticket is Some),
            (r matches Ok(ev) ==> (ev matches Event::PC1(t, _) ==> (old(
                job,
            ).sectors.inner.sectors@[0].phases.ticket matches Some(t0) ==> ticket_like(t, t0)))),
            ((old(job).sectors.inner.sectors@.len() == 0 || old(
                job,
            ).sectors.inner.sectors@[0].phases.ticket is None) ==> (r matches Err(f) && f.kind
                == FailureKind::Critical)),
            (r matches Err(f) ==> (f.kind == FailureKind::Critical || f.kind
                == FailureKind::Temporary)),
            (r matches Err(f) ==> (f.kind == FailureKind::Critical ==> (old(job).sectors.inner.sectors@.len() == 0 || old(
                job,
            ).sectors.inner.sectors@[0].phases.ticket is None))),
    {
        if job.sectors.inner.sectors.len() == 0 {
            return Err(Failure::critical("sector index out of bounds"));
        }
        let ticket = match &job.sectors.inner.sectors[0].phases.ticket {
            Some(t) => dup_ticket(t),
            None => {
                return Err(Failure::critical("ticket required"));
            },
        };
        let ticket_for_event = dup_ticket(&ticket);
        match job.ports.pc1(ticket) {
            Ok(outs) => Ok(Event::PC1(ticket_for_event, outs)),
            Err(e) => Err(classify_rpc(e)),
        }
    }

    /// Proving backend: second pre-commit phase over the whole batch, from
    /// every sector's first-phase output.
    pub fn pc2<P: SealerPorts>(job: &mut Job<P>) -> (r: Result<Event, Failure>)
        ensures
            preserves_record(*old(job), *final(job)),
            (r matches Ok(ev) ==> ev matches Event::PC2(..)),
            (r is Ok ==> forall|k: int|
                0 <= k < old(job).sectors.inner.sectors@.len() ==> (#[trigger] old(
                    job,
                ).sectors.inner.sectors@[k]).phases.pc1out is Some),
            (r matches Err(f) ==> (f.kind == FailureKind::Critical || f.kind
                == FailureKind::Temporary)),
            (r matches Err(f) ==> (f.kind == FailureKind::Critical ==> (exists|k: int|
                0 <= k < old(job).sectors.inner.sectors@.len() && (#[trigger] old(
                    job,
                ).sectors.inner.sectors@[k]).phases.pc1out is None))),
    {
        let len = job.sectors.inner.sectors.len();
        let mut outs: Vec<Pc1Out> = Vec::new();
        let mut k: usize = 0;
        while k < len
            invariant
                *job == *old(job),
                len == job.sectors.inner.sectors@.len(),
                k <= len,
                forall|j: int| 0 <= j < k ==> (#[trigger] job.sectors.inner.sectors@[j]).phases.pc1out
                    is Some,
            decreases len - k,
        {
            match &job.sectors.inner.sectors[k].phases.pc1out {
                Some(o) => outs.push(Pc1Out { out: clone_bytes(&o.out) }),
                None => {
                    return Err(Failure::critical("first pre-commit output required"));
                },
            }
            k = k + 1;
        }
        match job.ports.pc2(outs) {
            Ok(outs) => Ok(Event::PC2(outs)),
            Err(e) => Err(classify_rpc(e)),
        }
    }

    /// Submits sector `index`'s pre-commit information on chain, flagging a
    /// resubmission when one is pending, and interprets the result
    /// ([`spec_submit_outcome`]).
    pub fn submit_pre_commit<P: SealerPorts>(job: &mut Job<P>, index: usize) -> (r: Result<
        Event,
        Failure,
    >)
        ensures
            preserves_record(*old(job), *final(job)),
            (r matches Ok(ev) ==> ev == (Event::SubmitPC { index })),
            (index >= old(job).sectors.inner.sectors@.len() ==> (r matches Err(f) && f.kind
                == FailureKind::Critical)),
            ((index < old(job).sectors.inner.sectors@.len() && (old(
                job,
            ).sectors.inner.sectors@[index as int].base is None || old(
                job,
            ).sectors.inner.sectors@[index as int].phases.pc2out is None || old(
                job,
            ).sectors.inner.sectors@[index as int].phases.ticket is None)) ==> (r matches Err(f)
                && f.kind == FailureKind::Critical)),
            (r matches Err(f) ==> (f.kind == FailureKind::Critical ==> (index >= old(job).sectors.inner.sectors@.len() || old(
                job,
            ).sectors.inner.sectors@[index as int].base is None || old(
                job,
            ).sectors.inner.sectors@[index as int].phases.pc2out is None || old(
                job,
            ).sectors.inner.sectors@[index as int].phases.ticket is None))),
    {
        let (allocated, pc2_re_submit) = {
            let sector = match job.sector(index) {
                Ok(s) => s,
                Err(f) => {
                    return Err(f);
                },
            };
            match (&sector.base, &sector.phases.pc2out, &sector.phases.ticket) {
                (Some(b), Some(_), Some(_)) => (b.allocated, sector.phases.pc2_re_submit),
                _ => {
                    return Err(Failure::critical("second pre-commit phase not completed"));
                },
            }
        };
        let pinfo = Self::pre_commit_info(job, index);
        let res = match job.ports.submit_pre_commit(allocated, pinfo, pc2_re_submit) {
            Ok(resp) => resp,
            Err(e) => {
                return Err(classify_rpc(e));
            },
        };
        interpret_submit_result(index, res.res, res.desc, false)
    }

    /// Assembles the pre-commit on-chain information for sector `index`:
    /// the stored commitments and ticket, and the sector's deal ids in
    /// order.
    fn pre_commit_info<P>(job: &Job<P>, index: usize) -> (info: PreCommitOnChainInfo)
        requires
            index < job.sectors.inner.sectors@.len(),
            job.sectors.inner.sectors@[index as int].phases.pc2out is Some,
            job.sectors.inner.sectors@[index as int].phases.ticket is Some,
        ensures
            ({
                let sector = job.sectors.inner.sectors@[index as int];
                &&& (sector.phases.pc2out matches Some(o) ==> info.comm_r@ == o.comm_r@
                    && info.comm_d@ == o.comm_d@)
                &&& (sector.phases.ticket matches Some(t) ==> ticket_like(info.ticket, t))
                &&& (sector.deals matches Some(ds) ==> info.deals@.len() == ds@.len() && (forall|
                    k: int,
                |
                    0 <= k < ds@.len() ==> info.deals@[k] == ds@[k].id))
                &&& (sector.deals is None ==> info.deals@.len() == 0)
            }),
    {
        let sector = &job.sectors.inner.sectors[index];
        let deals: Vec<u64> = match &sector.deals {
            Some(ds) => {
                let mut ids: Vec<u64> = Vec::new();
                let mut k: usize = 0;
                while k < ds.len()
                    invariant
                        k <= ds@.len(),
                        ids@.len() == k,
                        forall|j: int| 0 <= j < k ==> ids@[j] == ds@[j].id,
                    decreases ds@.len() - k,
                {
                    ids.push(ds[k].id);
                    k = k + 1;
                }
                ids
            },
            None => Vec::new(),
        };
        let pc2out = sector.phases.pc2out.as_ref().unwrap();
        let ticket = sector.phases.ticket.as_ref().unwrap();
        PreCommitOnChainInfo {
            comm_r: clone_bytes(&pc2out.comm_r),
            comm_d: clone_bytes(&pc2out.comm_d),
            ticket: dup_ticket(ticket),
            deals,
        }
    }

    /// Polls sector `index`'s pre-commit confirmation until a terminal
    /// outcome: the success event once it lands, a resubmission event after
    /// an on-chain failure (with a cooldown first), a classified failure
    /// otherwise. Pending polls sleep the configured interval through the
    /// cancellable wait; after `max_poll_rounds` pending rounds the action
    /// reports a temporary failure so the driver retries the state later.
    pub fn check_pre_commit_state<P: SealerPorts>(job: &mut Job<P>, index: usize) -> (r: Result<
        Event,
        Failure,
    >)
        ensures
            preserves_record(*old(job), *final(job)),
            (r matches Ok(ev) ==> ev == (Event::CheckPC { index }) || ev == (Event::ReSubmitPC {
                index,
            })),
            ((index >= old(job).sectors.inner.sectors@.len() || old(
                job,
            ).sectors.inner.sectors@[index as int].base is None) ==> (r matches Err(f) && f.kind
                == FailureKind::Critical)),
            (r matches Err(f) ==> (f.kind == FailureKind::Critical ==> (index >= old(job).sectors.inner.sectors@.len() || old(
                job,
            ).sectors.inner.sectors@[index as int].base is None))),
    {
        let sector_id = match Self::sector_id(job, index) {
            Ok(id) => id,
            Err(f) => {
                return Err(f);
            },
        };
        let interval = job.config.rpc_polling_interval;
        let mut rounds = job.config.max_poll_rounds;
        while rounds > 0
            invariant
                preserves_record(*old(job), *job),
                index < old(job).sectors.inner.sectors@.len(),
                old(job).sectors.inner.sectors@[index as int].base is Some,
            decreases rounds,
        {
            let resp = match job.ports.poll_pre_commit_state(sector_id) {
                Ok(resp) => resp,
                Err(e) => {
                    return Err(classify_rpc(e));
                },
            };
            match decide_poll(resp.state) {
                PollDecision::Wait => {
                    if !job.ports.wait_or_interrupted(interval) {
                        return Err(Failure::abort("sealing interrupted"));
                    }
                    rounds = rounds - 1;
                },
                PollDecision::Resubmit => {
                    if !job.ports.wait_or_interrupted(SUBMIT_FAILED_COOLDOWN_SECS) {
                        return Err(Failure::abort("sealing interrupted"));
                    }
                    return interpret_poll(index, PollDecision::Resubmit, resp.desc, false);
                },
                terminal => {
                    return interpret_poll(index, terminal, resp.desc, false);
                },
            }
        }
        interpret_poll(index, PollDecision::Wait, None, false)
    }

    /// Persists sector `index`'s sealed files into a storage instance and
    /// confirms with the sector manager that they are retrievable there; a
    /// negative confirmation is a permanent failure. A persisted instance
    /// name already in the record is reused.
    pub fn persist_sector_files<P: SealerPorts>(job: &mut Job<P>, index: usize) -> (r: Result<
        Event,
        Failure,
    >)
        ensures
            preserves_record(*old(job), *final(job)),
            (r matches Ok(ev) ==> ev matches Event::Persist { index: i2, .. } && i2 == index),
            ((index >= old(job).sectors.inner.sectors@.len() || old(
                job,
            ).sectors.inner.sectors@[index as int].base is None) ==> (r matches Err(f) && f.kind
                == FailureKind::Critical)),
            (r matches Err(f) ==> (f.kind == FailureKind::Critical ==> (index >= old(job).sectors.inner.sectors@.len() || old(
                job,
            ).sectors.inner.sectors@[index as int].base is None))),
    {
        let sector_id = match Self::sector_id(job, index) {
            Ok(id) => id,
            Err(f) => {
                return Err(f);
            },
        };
        let instance = match &job.sectors.inner.sectors[index].phases.persist_instance {
            Some(i) => i.clone(),
            None => {
                match job.ports.persist_sector_files(sector_id) {
                    Ok(i) => i,
                    Err(e) => {
                        return Err(classify_rpc(e));
                    },
                }
            },
        };
        let instance_for_event = instance.clone();
        let checked = match job.ports.submit_persisted_ex(sector_id, instance, false) {
            Ok(c) => c,
            Err(e) => {
                return Err(classify_rpc(e));
            },
        };
        interpret_persisted_check(index, Some(instance_for_event), checked)
    }

    /// Confirms with the sector manager that sector `index`'s sealed output
    /// landed in its declared storage instance; a negative confirmation is a
    /// permanent failure.
    pub fn submit_persisted<P: SealerPorts>(job: &mut Job<P>, index: usize) -> (r: Result<
        Event,
        Failure,
    >)
        ensures
            preserves_record(*old(job), *final(job)),
            (r matches Ok(ev) ==> ev == (Event::SubmitPersistance { index })),
            ((index >= old(job).sectors.inner.sectors@.len() || old(
                job,
            ).sectors.inner.sectors@[index as int].base is None) ==> (r matches Err(f) && f.kind
                == FailureKind::Critical)),
            ((index < old(job).sectors.inner.sectors@.len() && old(
                job,
            ).sectors.inner.sectors@[index as int].phases.persist_instance is None) ==> (
            r matches Err(f) && f.kind == FailureKind::Critical)),
            (r matches Err(f) ==> (f.kind == FailureKind::Critical ==> (index >= old(job).sectors.inner.sectors@.len() || old(
                job,
            ).sectors.inner.sectors@[index as int].base is None || old(
                job,
            ).sectors.inner.sectors@[index as int].phases.persist_instance is None))),
    {
        let sector_id = match Self::sector_id(job, index) {
            Ok(id) => id,
            Err(f) => {
                return Err(f);
            },
        };
        let instance = match &job.sectors.inner.sectors[index].phases.persist_instance {
            Some(i) => i.clone(),
            None => {
                return Err(Failure::critical("sector persist instance required"));
            },
        };
        let checked = match job.ports.submit_persisted_ex(sector_id, instance, false) {
            Ok(c) => c,
            Err(e) => {
                return Err(classify_rpc(e));
            },
        };
        interpret_persisted_check(index, None, checked)
    }

    /// Polls seed availability for sector `index`: the server answers with a
    /// seed, with a delay to wait before asking again, or with an invalid
    /// empty response (a temporary failure). The wait is cancellable.
    pub fn wait_seed<P: SealerPorts>(job: &mut Job<P>, index: usize) -> (r: Result<Event, Failure>)
        ensures
            preserves_record(*old(job), *final(job)),
            (r matches Ok(ev) ==> ev matches Event::AssignSeed { index: i2, .. } && i2 == index),
            ((index >= old(job).sectors.inner.sectors@.len() || old(
                job,
            ).sectors.inner.sectors@[index as int].base is None) ==> (r matches Err(f) && f.kind
                == FailureKind::Critical)),
            (r matches Err(f) ==> (f.kind == FailureKind::Critical ==> (index >= old(job).sectors.inner.sectors@.len() || old(
                job,
            ).sectors.inner.sectors@[index as int].base is None))),
    {
        let sector_id = match Self::sector_id(job, index) {
            Ok(id) => id,
            Err(f) => {
                return Err(f);
            },
        };
        let mut rounds = job.config.max_poll_rounds;
        while rounds > 0
            invariant
                preserves_record(*old(job), *job),
                index < old(job).sectors.inner.sectors@.len(),
                old(job).sectors.inner.sectors@[index as int].base is Some,
            decreases rounds,
        {
            let resp = match job.ports.wait_seed(sector_id) {
                Ok(resp) => resp,
                Err(e) => {
                    return Err(classify_rpc(e));
                },
            };
            match decide_wait_seed(resp) {
                SeedDecision::Delay(delay) => {
                    if !job.ports.wait_or_interrupted(delay) {
                        return Err(Failure::abort("sealing interrupted"));
                    }
                    rounds = rounds - 1;
                },
                settled => {
                    return interpret_seed_decision(index, settled);
                },
            }
        }
        interpret_seed_decision(index, SeedDecision::Delay(0))
    }

    /// Proving backend: first commit phase over the whole batch, one
    /// assigned seed per sector.
    pub fn commit1<P: SealerPorts>(job: &mut Job<P>) -> (r: Result<Event, Failure>)
        ensures
            preserves_record(*old(job), *final(job)),
            (r matches Ok(ev) ==> ev matches Event::C1(_)),
            (r is Ok ==> forall|k: int|
                0 <= k < old(job).sectors.inner.sectors@.len() ==> (#[trigger] old(
                    job,
                ).sectors.inner.sectors@[k]).phases.seed is Some),
            (r matches Err(f) ==> (f.kind == FailureKind::Critical || f.kind
                == FailureKind::Temporary)),
            (r matches Err(f) ==> (f.kind == FailureKind::Critical ==> (exists|k: int|
                0 <= k < old(job).sectors.inner.sectors@.len() && (#[trigger] old(
                    job,
                ).sectors.inner.sectors@[k]).phases.seed is None))),
    {
        let len = job.sectors.inner.sectors.len();
        let mut seeds: Vec<Seed> = Vec::new();
        let mut k: usize = 0;
        while k < len
            invariant
                *job == *old(job),
                len == job.sectors.inner.sectors@.len(),
                k <= len,
                forall|j: int| 0 <= j < k ==> (#[trigger] job.sectors.inner.sectors@[j]).phases.seed
                    is Some,
            decreases len - k,
        {
            match &job.sectors.inner.sectors[k].phases.seed {
                Some(s) => seeds.push(Seed { seed: clone_bytes(&s.seed), epoch: s.epoch }),
                None => {
                    return Err(Failure::critical("seed required"));
                },
            }
            k = k + 1;
        }
        match job.ports.c1(seeds) {
            Ok(outs) => Ok(Event::C1(outs)),
            Err(e) => Err(classify_rpc(e)),
        }
    }

    /// Proving backend: second commit phase for sector `index`, producing
    /// its final proof.
    pub fn commit2<P: SealerPorts>(job: &mut Job<P>, index: usize) -> (r: Result<Event, Failure>)
        ensures
            preserves_record(*old(job), *final(job)),
            (r matches Ok(ev) ==> ev matches Event::C2 { index: i2, .. } && i2 == index),
            ((index >= old(job).sectors.inner.sectors@.len() || old(
                job,
            ).sectors.inner.sectors@[index as int].base is None) ==> (r matches Err(f) && f.kind
                == FailureKind::Critical)),
            ((index < old(job).sectors.inner.sectors@.len() && old(
                job,
            ).sectors.inner.sectors@[index as int].phases.c1out is None) ==> (r matches Err(f)
                && f.kind == FailureKind::Critical)),
            (r matches Err(f) ==> (f.kind == FailureKind::Critical || f.kind
                == FailureKind::Temporary)),
            (r matches Err(f) ==> (f.kind == FailureKind::Critical ==> (index >= old(job).sectors.inner.sectors@.len() || old(
                job,
            ).sectors.inner.sectors@[index as int].base is None || old(
                job,
            ).sectors.inner.sectors@[index as int].phases.c1out is None))),
    {
        let sector_id = match Self::sector_id(job, index) {
            Ok(id) => id,
            Err(f) => {
                return Err(f);
            },
        };
        let c1out = match &job.sectors.inner.sectors[index].phases.c1out {
            Some(o) => C1Out { out: clone_bytes(&o.out) },
            None => {
                return Err(Failure::critical("first commit output required"));
            },
        };
        match job.ports.c2(sector_id, c1out) {
            Ok(out) => Ok(Event::C2 { index, out }),
            Err(e) => Err(classify_rpc(e)),
        }
    }

    /// Submits sector `index`'s proof on chain, flagging a resubmission when
    /// one is pending, and interprets the result ([`spec_submit_outcome`]).
    pub fn submit_proof<P: SealerPorts>(job: &mut Job<P>, index: usize) -> (r: Result<
        Event,
        Failure,
    >)
        ensures
            preserves_record(*old(job), *final(job)),
            (r matches Ok(ev) ==> ev == (Event::SubmitProof { index })),
            ((index >= old(job).sectors.inner.sectors@.len() || old(
                job,
            ).sectors.inner.sectors@[index as int].base is None) ==> (r matches Err(f) && f.kind
                == FailureKind::Critical)),
            ((index < old(job).sectors.inner.sectors@.len() && old(
                job,
            ).sectors.inner.sectors@[index as int].phases.c2out is None) ==> (r matches Err(f)
                && f.kind == FailureKind::Critical)),
            (r matches Err(f) ==> (f.kind == FailureKind::Critical ==> (index >= old(job).sectors.inner.sectors@.len() || old(
                job,
            ).sectors.inner.sectors@[index as int].base is None || old(
                job,
            ).sectors.inner.sectors@[index as int].phases.c2out is None))),
    {
        let sector_id = match Self::sector_id(job, index) {
            Ok(id) => id,
            Err(f) => {
                return Err(f);
            },
        };
        let (info, c2_re_submit) = {
            let sector = &job.sectors.inner.sectors[index];
            match &sector.phases.c2out {
                Some(o) => (
                    ProofOnChainInfo { proof: clone_bytes(&o.proof) },
                    sector.phases.c2_re_submit,
                ),
                None => {
                    return Err(Failure::critical("second commit output required"));
                },
            }
        };
        let res = match job.ports.submit_proof(sector_id, info, c2_re_submit) {
            Ok(resp) => resp,
            Err(e) => {
                return Err(classify_rpc(e));
            },
        };
        interpret_submit_result(index, res.res, res.desc, true)
    }

    /// Polls sector `index`'s proof confirmation exactly as
    /// [`BatchSealer::check_pre_commit_state`] polls the pre-commit, unless
    /// proof checking is configured off, in which case the sector finishes
    /// immediately.
    pub fn check_proof_state<P: SealerPorts>(job: &mut Job<P>, index: usize) -> (r: Result<
        Event,
        Failure,
    >)
        ensures
            preserves_record(*old(job), *final(job)),
            (r matches Ok(ev) ==> ev == (Event::Finish { index }) || ev == (Event::ReSubmitProof {
                index,
            })),
            ((index >= old(job).sectors.inner.sectors@.len() || old(
                job,
            ).sectors.inner.sectors@[index as int].base is None) ==> (r matches Err(f) && f.kind
                == FailureKind::Critical)),
            (old(job).config.ignore_proof_check && index < old(job).sectors.inner.sectors@.len()
                && old(job).sectors.inner.sectors@[index as int].base is Some) ==> (r matches Ok(ev)
                && ev == (Event::Finish { index })),
            (r matches Err(f) ==> (f.kind == FailureKind::Critical ==> (index >= old(job).sectors.inner.sectors@.len() || old(
                job,
            ).sectors.inner.sectors@[index as int].base is None))),
    {
        let sector_id = match Self::sector_id(job, index) {
            Ok(id) => id,
            Err(f) => {
                return Err(f);
            },
        };
        if !job.config.ignore_proof_check {
            let interval = job.config.rpc_polling_interval;
            let mut rounds = job.config.max_poll_rounds;
            while rounds > 0
                invariant
                    preserves_record(*old(job), *job),
                    !old(job).config.ignore_proof_check,
                    index < old(job).sectors.inner.sectors@.len(),
                    old(job).sectors.inner.sectors@[index as int].base is Some,
                decreases rounds,
            {
                let resp = match job.ports.poll_proof_state(sector_id) {
                    Ok(resp) => resp,
                    Err(e) => {
                        return Err(classify_rpc(e));
                    },
                };
                match decide_poll(resp.state) {
                    PollDecision::Wait => {
                        if !job.ports.wait_or_interrupted(interval) {
                            return Err(Failure::abort("sealing interrupted"));
                        }
                        rounds = rounds - 1;
                    },
                    PollDecision::Resubmit => {
                        if !job.ports.wait_or_interrupted(SUBMIT_FAILED_COOLDOWN_SECS) {
                            return Err(Failure::abort("sealing interrupted"));
                        }
                        return interpret_poll(index, PollDecision::Resubmit, resp.desc, true);
                    },
                    terminal => {
                        return interpret_poll(index, terminal, resp.desc, true);
                    },
                }
            }
            return interpret_poll(index, PollDecision::Wait, None, true);
        }
        Ok(Event::Finish { index })
    }
}

impl BatchPlanner {
    /// Performs the one action selected for the current state
    /// ([`spec_dispatch`]) and returns the event it reached: `None` exactly
    /// for a fully finished batch, an unconditional abort failure for an
    /// aborted batch, and otherwise an event the action legitimately
    /// produces ([`event_matches_action`]). The batch record itself is never
    /// mutated here; only a later commit of the returned event moves it.
    pub fn exec<P: SealerPorts>(&self, job: &mut Job<P>) -> (r: Result<Option<Event>, Failure>)
        requires
            old(job).wf(),
        ensures
            preserves_record(*old(job), *final(job)),
            ({
                let a = crate::planner::spec_dispatch(
                    old(job).sectors.inner.state,
                    old(job).sectors.inner.batch_size,
                );
                &&& (r matches Ok(None) <==> a == Action::Done)
                &&& (a == Action::Abort ==> (r matches Err(f) && f.kind == FailureKind::Abort))
                &&& (r matches Ok(Some(ev)) ==> event_matches_action(
                    a,
                    ev,
                    old(job).sectors.inner.sectors@.len() as int,
                ))
            }),
    {
        let state = job.sectors.inner.state;
        let batch_size = job.sectors.inner.batch_size;
        let act = self.dispatch(&state, batch_size);
        match act {
            Action::Allocate => some_event(BatchSealer::allocate(job)),
            Action::AcquireDeals(i) => some_event(BatchSealer::acquire_deals(job, i)),
            Action::AddPieces(i) => some_event(BatchSealer::add_pieces(job, i)),
            Action::BuildTreeD(i) => some_event(BatchSealer::build_tree_d(job, i)),
            Action::AssignTicket => some_event(BatchSealer::assign_ticket(job)),
            Action::PC1 => some_event(BatchSealer::pc1(job)),
            Action::PC2 => some_event(BatchSealer::pc2(job)),
            Action::SubmitPreCommit(i) => some_event(BatchSealer::submit_pre_commit(job, i)),
            Action::CheckPreCommit(i) => some_event(BatchSealer::check_pre_commit_state(job, i)),
            Action::PersistFiles(i) => some_event(BatchSealer::persist_sector_files(job, i)),
            Action::SubmitPersisted(i) => some_event(BatchSealer::submit_persisted(job, i)),
            Action::WaitSeed(i) => some_event(BatchSealer::wait_seed(job, i)),
            Action::Commit1 => some_event(BatchSealer::commit1(job)),
            Action::Commit2(i) => some_event(BatchSealer::commit2(job, i)),
            Action::SubmitProof(i) => some_event(BatchSealer::submit_proof(job, i)),
            Action::CheckProof(i) => some_event(BatchSealer::check_proof_state(job, i)),
            Action::Done => Ok(None),
            Action::Abort => Err(Failure::abort("task aborted")),
        }
    }
}

/// Wraps an action's event into the executor's optional result.
fn some_event(r: Result<Event, Failure>) -> (x: Result<Option<Event>, Failure>)
    ensures
        match r {
            Ok(e) => x == Ok::<Option<Event>, Failure>(Some(e)),
            Err(f) => x == Err::<Option<Event>, Failure>(f),
        },
{
    match r {
        Ok(e) => Ok(Some(e)),
        Err(f) => Err(f),
    }
}

} // verus!
