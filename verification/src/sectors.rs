//! Data model of one sealing batch: sectors, their accumulated phase
//! outputs, and the durable dirty-tracked record that owns them.

use vstd::prelude::*;

use crate::state::State;

verus! {

/// On-chain identity of one sector: the owning miner actor and the sector
/// number that actor assigned.
#[derive(Clone, Copy, Debug, PartialEq, Eq, Structural)]
pub struct SectorId {
    pub miner: u64,
    pub number: u64,
}

/// A sector assignment handed out by the sector manager.
#[derive(Clone, Copy, Debug, PartialEq, Eq, Structural)]
pub struct AllocatedSector {
    pub id: SectorId,
    /// Registered seal proof kind, as its numeric code.
    pub proof_type: u64,
}

/// One deal descriptor attached to a sector.
#[derive(Clone, Copy, Debug, PartialEq, Eq, Structural)]
pub struct DealInfo {
    pub id: u64,
    pub piece_size: u64,
}

/// Chain-supplied randomness consumed by the first pre-commit phase.
#[derive(Debug)]
pub struct Ticket {
    pub ticket: Vec<u8>,
    pub epoch: u64,
}

/// Chain-supplied randomness consumed by the commit phases.
#[derive(Debug)]
pub struct Seed {
    pub seed: Vec<u8>,
    pub epoch: u64,
}

/// One piece written into a sector, as reported by the proving backend.
#[derive(Debug)]
pub struct PieceInfo {
    pub size: u64,
    pub commitment: Vec<u8>,
}

/// Output of the first pre-commit proof phase for one sector.
#[derive(Debug)]
pub struct Pc1Out {
    pub out: Vec<u8>,
}

/// Output of the second pre-commit proof phase for one sector: the replica
/// and data commitments that go on chain.
#[derive(Debug)]
pub struct Pc2Out {
    pub comm_r: Vec<u8>,
    pub comm_d: Vec<u8>,
}

/// Output of the first commit proof phase for one sector.
#[derive(Debug)]
pub struct C1Out {
    pub out: Vec<u8>,
}

/// Output of the second commit proof phase for one sector: the final proof.
#[derive(Debug)]
pub struct C2Out {
    pub proof: Vec<u8>,
}

/// The derived proving input: the 32-byte prover identity and the numeric
/// sector id, as the proving backend expects them.
#[derive(Debug)]
pub struct ProveInput {
    pub prover_id: Vec<u8>,
    pub sector_number: u64,
}

/// Set once a sector is allocated; immutable afterwards.
#[derive(Debug)]
pub struct Base {
    pub allocated: AllocatedSector,
    pub prove_input: ProveInput,
}

/// Mutable record accumulated across the pipeline, populated monotonically
/// in pipeline order.
#[derive(Debug)]
pub struct Phases {
    pub pieces: Option<Vec<PieceInfo>>,
    pub ticket: Option<Ticket>,
    pub pc1out: Option<Pc1Out>,
    pub pc2out: Option<Pc2Out>,
    pub c1out: Option<C1Out>,
    pub c2out: Option<C2Out>,
    pub seed: Option<Seed>,
    pub persist_instance: Option<String>,
    pub pc2_re_submit: bool,
    pub c2_re_submit: bool,
}

impl Phases {
    /// A fresh record with nothing populated and both resubmission flags
    /// cleared.
    pub fn empty() -> (p: Phases)
        ensures
            p.pieces is None,
            p.ticket is None,
            p.pc1out is None,
            p.pc2out is None,
            p.c1out is None,
            p.c2out is None,
            p.seed is None,
            p.persist_instance is None,
            !p.pc2_re_submit,
            !p.c2_re_submit,
    {
        Phases {
            pieces: None,
            ticket: None,
            pc1out: None,
            pc2out: None,
            c1out: None,
            c2out: None,
            seed: None,
            persist_instance: None,
            pc2_re_submit: false,
            c2_re_submit: false,
        }
    }
}

/// One sealing unit within a batch.
#[derive(Debug)]
pub struct Sector {
    /// Absent before allocation; set once and then immutable.
    pub base: Option<Base>,
    /// Deal descriptors attached to the sector; absent for sectors sealed
    /// with no real data.
    pub deals: Option<Vec<DealInfo>>,
    pub phases: Phases,
}

impl Sector {
    /// A sector that has not been allocated yet.
    pub fn empty() -> (s: Sector)
        ensures
            s.base is None,
            s.deals is None,
            s.phases.ticket is None,
            s.phases.pc2out is None,
            s.phases.c2out is None,
            s.phases.persist_instance is None,
            s.phases.seed is None,
            s.phases.pieces is None,
            s.phases.pc1out is None,
            s.phases.c1out is None,
            !s.phases.pc2_re_submit,
            !s.phases.c2_re_submit,
    {
        Sector { base: None, deals: None, phases: Phases::empty() }
    }
}

/// The batch: an ordered sequence of sectors (index = position, stable for
/// the batch's lifetime), the size fixed at creation, and the current
/// pipeline state.
#[derive(Debug)]
pub struct Sectors {
    pub sectors: Vec<Sector>,
    pub batch_size: usize,
    pub state: State,
}

impl Sectors {
    /// Well-formedness: the sector list has exactly `batch_size` entries and
    /// the batch is not empty.
    pub open spec fn wf(self) -> bool {
        self.sectors@.len() == self.batch_size && self.batch_size >= 1
    }

    /// A new batch of `batch_size` unallocated sectors in the initial state.
    pub fn new(batch_size: usize) -> (s: Sectors)
        requires
            batch_size >= 1,
        ensures
            s.wf(),
            s.batch_size == batch_size,
            s.state == State::Empty,
            forall|k: int| 0 <= k < batch_size ==> (#[trigger] s.sectors@[k]).base is None,
    {
        let mut sectors: Vec<Sector> = Vec::new();
        let mut k: usize = 0;
        while k < batch_size
            invariant
                k <= batch_size,
                sectors@.len() == k,
                forall|j: int| 0 <= j < k ==> (#[trigger] sectors@[j]).base is None,
            decreases batch_size - k,
        {
            sectors.push(Sector::empty());
            k = k + 1;
        }
        Sectors { sectors, batch_size, state: State::Empty }
    }
}

/// The durable document wrapping the batch, with a dirty flag. Mutation goes
/// through [`SectorsDoc::inner_mut`], which marks the record dirty; a commit
/// clears the flag once the driver has written the record to its store, so a
/// write is never skipped accidentally.
#[derive(Debug)]
pub struct SectorsDoc {
    pub inner: Sectors,
    pub dirty: bool,
}

impl SectorsDoc {
    /// Wraps a freshly loaded batch; a just-loaded record is clean.
    pub fn new(inner: Sectors) -> (d: SectorsDoc)
        ensures
            d.inner == inner,
            !d.dirty,
    {
        SectorsDoc { inner, dirty: false }
    }

    /// Read-only access; does not touch the dirty flag.
    pub fn inner(&self) -> (r: &Sectors)
        ensures
            *r == self.inner,
    {
        &self.inner
    }

    /// Mutable access; the record is marked dirty before the caller can
    /// touch it, so every mutation path leaves a pending write behind.
    pub fn inner_mut(&mut self) -> (r: &mut Sectors)
        ensures
            *r == old(self).inner,
            final(self).inner == *final(r),
            final(self).dirty,
    {
        self.dirty = true;
        &mut self.inner
    }

    /// Whether an uncommitted mutation is pending.
    pub fn is_dirty(&self) -> (r: bool)
        ensures
            r == self.dirty,
    {
        self.dirty
    }

    /// Acknowledges a successful durable write: returns whether a write was
    /// actually owed and clears the flag. The driver must only call this
    /// after its store accepted the serialized record.
    pub fn commit(&mut self) -> (was_dirty: bool)
        ensures
            was_dirty == old(self).dirty,
            !final(self).dirty,
            final(self).inner == old(self).inner,
    {
        let was_dirty = self.dirty;
        self.dirty = false;
        was_dirty
    }
}

/// Byte-for-byte copy of a byte vector.
pub fn clone_bytes(v: &Vec<u8>) -> (r: Vec<u8>)
    ensures
        r@ == v@,
{
    copy_vec(v)
}

/// Element-for-element copy of a vector of plain values.
pub fn copy_vec<T: Copy>(v: &Vec<T>) -> (r: Vec<T>)
    ensures
        r@ == v@,
{
    let mut r: Vec<T> = Vec::new();
    let mut i: usize = 0;
    while i < v.len()
        invariant
            i <= v@.len(),
            r@ == v@.take(i as int),
        decreases v@.len() - i,
    {
        r.push(v[i]);
        assert(r@ =~= v@.take(i + 1 as int));
        i = i + 1;
    }
    assert(r@ =~= v@);
    r
}

/// Copy of an optional deal list.
pub fn copy_deals(d: &Option<Vec<DealInfo>>) -> (r: Option<Vec<DealInfo>>)
    ensures
        r is Some <==> d is Some,
        (r matches Some(b) ==> d matches Some(a) && b@ == a@),
{
    match d {
        Some(v) => Some(copy_vec(v)),
        None => None,
    }
}

/// Two piece records describe the same piece.
pub open spec fn piece_like(a: PieceInfo, b: PieceInfo) -> bool {
    a.size == b.size && a.commitment@ == b.commitment@
}

/// Piece-for-piece copy of a piece list.
pub fn copy_pieces(v: &Vec<PieceInfo>) -> (r: Vec<PieceInfo>)
    ensures
        r@.len() == v@.len(),
        forall|k: int| 0 <= k < v@.len() ==> piece_like(#[trigger] r@[k], v@[k]),
{
    let mut r: Vec<PieceInfo> = Vec::new();
    let mut i: usize = 0;
    while i < v.len()
        invariant
            i <= v@.len(),
            r@.len() == i,
            forall|k: int| 0 <= k < i ==> piece_like(#[trigger] r@[k], v@[k]),
        decreases v@.len() - i,
    {
        let p = PieceInfo { size: v[i].size, commitment: clone_bytes(&v[i].commitment) };
        r.push(p);
        i = i + 1;
    }
    r
}

/// Copy of a ticket: same randomness, same epoch.
pub fn dup_ticket(t: &Ticket) -> (r: Ticket)
    ensures
        r.ticket@ == t.ticket@,
        r.epoch == t.epoch,
{
    Ticket { ticket: clone_bytes(&t.ticket), epoch: t.epoch }
}

/// The byte at position `i` of the little-endian encoding of `m`.
pub open spec fn le_byte_of(m: u64, i: int) -> u8 {
    ((m >> (8 * i) as u64) & 0xff) as u8
}

/// The 32-byte prover identity derived from a miner actor id: the actor id
/// in little-endian order, zero-padded to 32 bytes.
pub open spec fn prover_id_bytes(m: u64) -> Seq<u8> {
    Seq::new(32, |i: int| if i < 8 { le_byte_of(m, i) } else { 0u8 })
}

/// Derives the 32-byte prover identity for a miner actor id.
pub fn to_prover_id(miner: u64) -> (r: Vec<u8>)
    ensures
        r@ == prover_id_bytes(miner),
{
    let mut r: Vec<u8> = Vec::new();
    let mut i: usize = 0;
    while i < 8
        invariant
            i <= 8,
            r@.len() == i,
            forall|j: int| 0 <= j < i ==> r@[j] == le_byte_of(miner, j),
        decreases 8 - i,
    {
        let b: u8 = ((miner >> ((8 * i) as u64)) & 0xff) as u8;
        assert(b == le_byte_of(miner, i as int));
        r.push(b);
        i = i + 1;
    }
    while i < 32
        invariant
            8 <= i <= 32,
            r@.len() == i,
            forall|j: int| 0 <= j < 8 ==> r@[j] == le_byte_of(miner, j),
            forall|j: int| 8 <= j < i ==> r@[j] == 0u8,
        decreases 32 - i,
    {
        r.push(0u8);
        i = i + 1;
    }
    assert(r@ =~= prover_id_bytes(miner));
    r
}

} // verus!
