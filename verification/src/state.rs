//! Pipeline states and events, and the effect of an event on the batch.

use vstd::prelude::*;

use crate::sectors::{
    AllocatedSector, Base, C1Out, C2Out, DealInfo, Pc1Out, Pc2Out, PieceInfo, ProveInput, Sector,
    Sectors, Seed, Ticket, clone_bytes, prover_id_bytes, to_prover_id,
};

verus! {

/// The strictly ordered pipeline states of one batch. Most states carry the
/// index of the sector that last completed the phase; the index advances
/// from `0` to `batch_size - 1` before the whole batch moves to the next
/// phase. `Aborted` is terminal and reachable from any point.
#[derive(Clone, Copy, Debug, PartialEq, Eq, Structural)]
pub enum State {
    Empty,
    Allocated,
    DealsAcquired { index: usize },
    PieceAdded { index: usize },
    TreeDBuilt { index: usize },
    TicketAssigned,
    PC1Done,
    PC2Done,
    PCSubmitted { index: usize },
    PCLanded { index: usize },
    Persisted { index: usize },
    PersistanceSubmitted { index: usize },
    SeedAssigned { index: usize },
    C1Done,
    C2Done { index: usize },
    ProofSubmitted { index: usize },
    Finished { index: usize },
    Aborted,
}

/// An immutable description of one completed executor action. It is consumed
/// exactly once: the planner computes the next state from it, and the
/// mutation step folds its payload into the batch record.
#[derive(Debug)]
pub enum Event {
    /// Force the batch into the given state (driver-side repair).
    SetState(State),
    /// No task available from the sector manager; retry this state later.
    /// Not an error.
    Idle,
    Allocate(Vec<AllocatedSector>),
    AcquireDeals { index: usize, deals: Option<Vec<DealInfo>> },
    AddPiece { index: usize, pieces: Vec<PieceInfo> },
    BuildTreeD { index: usize },
    AssignTicket(Ticket),
    PC1(Ticket, Vec<Pc1Out>),
    PC2(Vec<Pc2Out>),
    SubmitPC { index: usize },
    ReSubmitPC { index: usize },
    CheckPC { index: usize },
    Persist { instance: String, index: usize },
    SubmitPersistance { index: usize },
    AssignSeed { index: usize, seed: Seed },
    C1(Vec<C1Out>),
    C2 { index: usize, out: C2Out },
    SubmitProof { index: usize },
    ReSubmitProof { index: usize },
    Finish { index: usize },
}

/// Two tickets carry the same randomness and epoch.
pub open spec fn ticket_like(a: Ticket, b: Ticket) -> bool {
    a.ticket@ == b.ticket@ && a.epoch == b.epoch
}

/// The sequence is unchanged outside position `i`.
pub open spec fn same_except(olds: Seq<Sector>, news: Seq<Sector>, i: int) -> bool {
    &&& news.len() == olds.len()
    &&& forall|k: int| 0 <= k < olds.len() && k != i ==> news[k] == olds[k]
}

/// Position `i` was replaced by `n` (everything else untouched); positions
/// out of range leave the sequence unchanged.
pub open spec fn updated_at(olds: Seq<Sector>, news: Seq<Sector>, i: int, n: Sector) -> bool {
    if 0 <= i < olds.len() {
        same_except(olds, news, i) && news[i] == n
    } else {
        news == olds
    }
}

/// What `Event::apply_changes` does to the sector list: the exact per-event
/// effect on the batch record.
pub open spec fn spec_apply_changes(e: Event, olds: Seq<Sector>, news: Seq<Sector>) -> bool {
    match e {
        Event::Allocate(allocated) => {
            let n = if allocated@.len() < olds.len() { allocated@.len() as int } else { olds.len() as int };
            &&& news.len() == olds.len()
            &&& forall|k: int| 0 <= k < n ==> {
                let s = #[trigger] news[k];
                &&& s.base matches Some(b)
                    && b.allocated == allocated@[k]
                    && b.prove_input.prover_id@ == prover_id_bytes(allocated@[k].id.miner)
                    && b.prove_input.sector_number == allocated@[k].id.number
                &&& s.deals == olds[k].deals
                &&& s.phases == olds[k].phases
            }
            &&& forall|k: int| n <= k < olds.len() ==> news[k] == olds[k]
        },
        Event::AcquireDeals { index, deals } => updated_at(
            olds,
            news,
            index as int,
            (Sector { deals: deals, ..olds[index as int] }),
        ),
        Event::AddPiece { index, pieces } => updated_at(
            olds,
            news,
            index as int,
            (Sector {
                phases: crate::sectors::Phases { pieces: Some(pieces), ..olds[index as int].phases },
                ..olds[index as int]
            }),
        ),
        Event::AssignTicket(t) => {
            &&& news.len() == olds.len()
            &&& forall|k: int| 0 <= k < olds.len() ==> {
                let s = #[trigger] news[k];
                &&& s.phases.ticket matches Some(t2) && ticket_like(t2, t)
                &&& s == (Sector {
                    phases: crate::sectors::Phases { ticket: s.phases.ticket, ..olds[k].phases },
                    ..olds[k]
                })
            }
        },
        Event::PC1(_t, outs) => zip_stored(olds, news, outs@.len() as int, |k: int, o: Sector, n: Sector|
            n == (Sector {
                phases: crate::sectors::Phases { pc1out: Some(outs@[k]), ..o.phases },
                ..o
            })),
        Event::PC2(outs) => zip_stored(olds, news, outs@.len() as int, |k: int, o: Sector, n: Sector|
            n == (Sector {
                phases: crate::sectors::Phases { pc2out: Some(outs@[k]), ..o.phases },
                ..o
            })),
        Event::C1(outs) => zip_stored(olds, news, outs@.len() as int, |k: int, o: Sector, n: Sector|
            n == (Sector {
                phases: crate::sectors::Phases { c1out: Some(outs@[k]), ..o.phases },
                ..o
            })),
        Event::C2 { index, out } => updated_at(
            olds,
            news,
            index as int,
            (Sector {
                phases: crate::sectors::Phases { c2out: Some(out), ..olds[index as int].phases },
                ..olds[index as int]
            }),
        ),
        Event::Persist { instance, index } => updated_at(
            olds,
            news,
            index as int,
            (Sector {
                phases: crate::sectors::Phases {
                    persist_instance: Some(instance),
                    ..olds[index as int].phases
                },
                ..olds[index as int]
            }),
        ),
        Event::AssignSeed { index, seed } => updated_at(
            olds,
            news,
            index as int,
            (Sector {
                phases: crate::sectors::Phases { seed: Some(seed), ..olds[index as int].phases },
                ..olds[index as int]
            }),
        ),
        Event::SubmitPC { index } => updated_at(
            olds,
            news,
            index as int,
            (Sector {
                phases: crate::sectors::Phases {
                    pc2_re_submit: false,
                    ..olds[index as int].phases
                },
                ..olds[index as int]
            }),
        ),
        Event::ReSubmitPC { index } => updated_at(
            olds,
            news,
            index as int,
            (Sector {
                phases: crate::sectors::Phases {
                    pc2_re_submit: true,
                    ..olds[index as int].phases
                },
                ..olds[index as int]
            }),
        ),
        Event::SubmitProof { index } => updated_at(
            olds,
            news,
            index as int,
            (Sector {
                phases: crate::sectors::Phases {
                    c2_re_submit: false,
                    ..olds[index as int].phases
                },
                ..olds[index as int]
            }),
        ),
        Event::ReSubmitProof { index } => updated_at(
            olds,
            news,
            index as int,
            (Sector {
                phases: crate::sectors::Phases {
                    c2_re_submit: true,
                    ..olds[index as int].phases
                },
                ..olds[index as int]
            }),
        ),
        _ => news == olds,
    }
}

/// The first `n` positions (bounded by the batch length) were rewritten by
/// `stored`, the rest untouched.
pub open spec fn zip_stored(
    olds: Seq<Sector>,
    news: Seq<Sector>,
    n: int,
    stored: spec_fn(int, Sector, Sector) -> bool,
) -> bool {
    let m = if n < olds.len() { n } else { olds.len() as int };
    &&& news.len() == olds.len()
    &&& forall|k: int| 0 <= k < m ==> #[trigger] stored(k, olds[k], news[k])
    &&& forall|k: int| m <= k < olds.len() ==> news[k] == olds[k]
}

impl Event {
    /// Folds this event's payload into the sector list. The exact effect is
    /// [`spec_apply_changes`]; the state tag and the batch size are never
    /// touched here.
    pub fn apply_changes(self, s: &mut Sectors)
        ensures
            final(s).batch_size == old(s).batch_size,
            final(s).state == old(s).state,
            spec_apply_changes(self, old(s).sectors@, final(s).sectors@),
    {
        let ghost olds = s.sectors@;
        match self {
            Event::Allocate(allocated) => {
                let n = if allocated.len() < s.sectors.len() {
                    allocated.len()
                } else {
                    s.sectors.len()
                };
                let mut k: usize = 0;
                while k < n
                    invariant
                        s.batch_size == old(s).batch_size,
                        s.state == old(s).state,
                        n <= olds.len(),
                        n <= allocated.len(),
                        k <= n,
                        s.sectors@.len() == olds.len(),
                        forall|j: int| 0 <= j < k ==> {
                            let sec = #[trigger] s.sectors@[j];
                            &&& sec.base matches Some(b)
                                && b.allocated == allocated@[j]
                                && b.prove_input.prover_id@ == prover_id_bytes(
                                    allocated@[j].id.miner,
                                )
                                && b.prove_input.sector_number == allocated@[j].id.number
                            &&& sec.deals == olds[j].deals
                            &&& sec.phases == olds[j].phases
                        },
                        forall|j: int| k <= j < olds.len() ==> s.sectors@[j] == olds[j],
                    decreases n - k,
                {
                    let a = allocated[k];
                    let prover_id = to_prover_id(a.id.miner);
                    let m = &mut s.sectors[k];
                    m.base = Some(
                        Base {
                            allocated: a,
                            prove_input: ProveInput { prover_id, sector_number: a.id.number },
                        },
                    );
                    k = k + 1;
                }
            },
            Event::AcquireDeals { index, deals } => {
                if index < s.sectors.len() {
                    let m = &mut s.sectors[index];
                    m.deals = deals;
                }
            },
            Event::AddPiece { index, pieces } => {
                if index < s.sectors.len() {
                    let m = &mut s.sectors[index];
                    m.phases.pieces = Some(pieces);
                }
            },
            Event::AssignTicket(t) => {
                let len = s.sectors.len();
                let mut k: usize = 0;
                while k < len
                    invariant
                        s.batch_size == old(s).batch_size,
                        s.state == old(s).state,
                        len == olds.len(),
                        k <= len,
                        s.sectors@.len() == olds.len(),
                        forall|j: int| 0 <= j < k ==> {
                            let sec = #[trigger] s.sectors@[j];
                            &&& sec.phases.ticket matches Some(t2) && ticket_like(t2, t)
                            &&& sec == (Sector {
                                phases: crate::sectors::Phases {
                                    ticket: sec.phases.ticket,
                                    ..olds[j].phases
                                },
                                ..olds[j]
                            })
                        },
                        forall|j: int| k <= j < olds.len() ==> s.sectors@[j] == olds[j],
                    decreases len - k,
                {
                    let copy = Ticket { ticket: clone_bytes(&t.ticket), epoch: t.epoch };
                    let m = &mut s.sectors[k];
                    m.phases.ticket = Some(copy);
                    k = k + 1;
                }
            },
            Event::PC1(_t, outs) => {
                store_pc1_outputs(s, outs);
            },
            Event::PC2(outs) => {
                store_pc2_outputs(s, outs);
            },
            Event::C1(outs) => {
                store_c1_outputs(s, outs);
            },
            Event::C2 { index, out } => {
                if index < s.sectors.len() {
                    let m = &mut s.sectors[index];
                    m.phases.c2out = Some(out);
                }
            },
            Event::Persist { instance, index } => {
                if index < s.sectors.len() {
                    let m = &mut s.sectors[index];
                    m.phases.persist_instance = Some(instance);
                }
            },
            Event::AssignSeed { index, seed } => {
                if index < s.sectors.len() {
                    let m = &mut s.sectors[index];
                    m.phases.seed = Some(seed);
                }
            },
            Event::SubmitPC { index } => {
                if index < s.sectors.len() {
                    let m = &mut s.sectors[index];
                    m.phases.pc2_re_submit = false;
                }
            },
            Event::ReSubmitPC { index } => {
                if index < s.sectors.len() {
                    let m = &mut s.sectors[index];
                    m.phases.pc2_re_submit = true;
                }
            },
            Event::SubmitProof { index } => {
                if index < s.sectors.len() {
                    let m = &mut s.sectors[index];
                    m.phases.c2_re_submit = false;
                }
            },
            Event::ReSubmitProof { index } => {
                if index < s.sectors.len() {
                    let m = &mut s.sectors[index];
                    m.phases.c2_re_submit = true;
                }
            },
            _ => {},
        }
    }
}

fn store_pc1_outputs(s: &mut Sectors, outs: Vec<Pc1Out>)
    ensures
        final(s).batch_size == old(s).batch_size,
        final(s).state == old(s).state,
        zip_stored(old(s).sectors@, final(s).sectors@, outs@.len() as int, |k: int, o: Sector, n: Sector|
            n == (Sector {
                phases: crate::sectors::Phases { pc1out: Some(outs@[k]), ..o.phases },
                ..o
            })),
{
    let ghost olds = s.sectors@;
    let ghost allouts = outs@;
    let mut outs = outs;
    let n = if outs.len() < s.sectors.len() { outs.len() } else { s.sectors.len() };
    let mut k: usize = 0;
    while k < n
        invariant
            s.batch_size == old(s).batch_size,
            s.state == old(s).state,
            n <= olds.len(),
            n <= allouts.len(),
            k <= n,
            outs@ == allouts.skip(k as int),
            s.sectors@.len() == olds.len(),
            forall|j: int| 0 <= j < k ==> #[trigger] s.sectors@[j] == (Sector {
                phases: crate::sectors::Phases { pc1out: Some(allouts[j]), ..olds[j].phases },
                ..olds[j]
            }),
            forall|j: int| k <= j < olds.len() ==> s.sectors@[j] == olds[j],
        decreases n - k,
    {
        let o = outs.remove(0);
        assert(o == allouts[k as int]);
        let m = &mut s.sectors[k];
        m.phases.pc1out = Some(o);
        k = k + 1;
        assert(outs@ =~= allouts.skip(k as int));
    }
}

fn store_pc2_outputs(s: &mut Sectors, outs: Vec<Pc2Out>)
    ensures
        final(s).batch_size == old(s).batch_size,
        final(s).state == old(s).state,
        zip_stored(old(s).sectors@, final(s).sectors@, outs@.len() as int, |k: int, o: Sector, n: Sector|
            n == (Sector {
                phases: crate::sectors::Phases { pc2out: Some(outs@[k]), ..o.phases },
                ..o
            })),
{
    let ghost olds = s.sectors@;
    let ghost allouts = outs@;
    let mut outs = outs;
    let n = if outs.len() < s.sectors.len() { outs.len() } else { s.sectors.len() };
    let mut k: usize = 0;
    while k < n
        invariant
            s.batch_size == old(s).batch_size,
            s.state == old(s).state,
            n <= olds.len(),
            n <= allouts.len(),
            k <= n,
            outs@ == allouts.skip(k as int),
            s.sectors@.len() == olds.len(),
            forall|j: int| 0 <= j < k ==> #[trigger] s.sectors@[j] == (Sector {
                phases: crate::sectors::Phases { pc2out: Some(allouts[j]), ..olds[j].phases },
                ..olds[j]
            }),
            forall|j: int| k <= j < olds.len() ==> s.sectors@[j] == olds[j],
        decreases n - k,
    {
        let o = outs.remove(0);
        assert(o == allouts[k as int]);
        let m = &mut s.sectors[k];
        m.phases.pc2out = Some(o);
        k = k + 1;
        assert(outs@ =~= allouts.skip(k as int));
    }
}

fn store_c1_outputs(s: &mut Sectors, outs: Vec<C1Out>)
    ensures
        final(s).batch_size == old(s).batch_size,
        final(s).state == old(s).state,
        zip_stored(old(s).sectors@, final(s).sectors@, outs@.len() as int, |k: int, o: Sector, n: Sector|
            n == (Sector {
                phases: crate::sectors::Phases { c1out: Some(outs@[k]), ..o.phases },
                ..o
            })),
{
    let ghost olds = s.sectors@;
    let ghost allouts = outs@;
    let mut outs = outs;
    let n = if outs.len() < s.sectors.len() { outs.len() } else { s.sectors.len() };
    let mut k: usize = 0;
    while k < n
        invariant
            s.batch_size == old(s).batch_size,
            s.state == old(s).state,
            n <= olds.len(),
            n <= allouts.len(),
            k <= n,
            outs@ == allouts.skip(k as int),
            s.sectors@.len() == olds.len(),
            forall|j: int| 0 <= j < k ==> #[trigger] s.sectors@[j] == (Sector {
                phases: crate::sectors::Phases { c1out: Some(allouts[j]), ..olds[j].phases },
                ..olds[j]
            }),
            forall|j: int| k <= j < olds.len() ==> s.sectors@[j] == olds[j],
        decreases n - k,
    {
        let o = outs.remove(0);
        assert(o == allouts[k as int]);
        let m = &mut s.sectors[k];
        m.phases.c1out = Some(o);
        k = k + 1;
        assert(outs@ =~= allouts.skip(k as int));
    }
}

} // verus!
