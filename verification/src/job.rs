//! The composition root of one batch: the persisted record, the injected
//! external ports, the sealing configuration, and the worker identity; plus
//! the commit step that folds a planned event into the record.

use vstd::prelude::*;

use crate::failure::{Failure, PlanError};
use crate::planner::BatchPlanner;
use crate::sectors::{Sector, SectorsDoc};
use crate::state::{spec_apply_changes, Event, State};

verus! {

/// Identity of the worker thread driving this batch.
#[derive(Debug)]
pub struct WorkerIdentifier {
    pub owner: String,
    pub instance: String,
}

/// One batch job: exclusively owns the persisted batch record for its whole
/// lifetime, and carries the handles the executor needs. It is created when
/// a worker thread picks up a batch and destroyed when the batch reaches a
/// terminal state or the worker exits.
#[derive(Debug)]
pub struct Job<P> {
    /// The durable, dirty-tracked batch record. No other component holds a
    /// writable reference.
    pub sectors: SectorsDoc,
    /// The external collaborators: RPC gateway, proving backend, waiter.
    pub ports: P,
    pub config: crate::rpc::SealingConfig,
    pub ident: WorkerIdentifier,
}

impl<P> Job<P> {
    /// A job is well-formed when its batch record is.
    pub open spec fn wf(self) -> bool {
        self.sectors.inner.wf()
    }

    /// Handle to the injected external ports.
    pub fn rpc(&self) -> (r: &P)
        ensures
            *r == self.ports,
    {
        &self.ports
    }

    /// The sector at `index`, or a critical failure for an out-of-bounds
    /// index (it indicates a driver or planner bug, not an external
    /// condition).
    pub fn sector(&self, index: usize) -> (r: Result<&Sector, Failure>)
        ensures
            match r {
                Ok(s) => index < self.sectors.inner.sectors@.len() && *s
                    == self.sectors.inner.sectors@[index as int],
                Err(f) => index >= self.sectors.inner.sectors@.len() && f.kind
                    == crate::failure::FailureKind::Critical,
            },
    {
        if index < self.sectors.inner.sectors.len() {
            Ok(&self.sectors.inner.sectors[index])
        } else {
            Err(Failure::critical("sector index out of bounds"))
        }
    }

    /// The pipeline kind this job is driven by; the batch job does not
    /// support switching planners.
    pub fn planner(&self) -> (r: &'static str)
        ensures
            r@ == "batch"@,
    {
        "batch"
    }
}

/// The state an event steers the batch to: the event's explicit target for a
/// forced state change, otherwise the state the planner computed.
pub open spec fn spec_target_state(e: Event, planned: State) -> State {
    match e {
        Event::SetState(s) => s,
        _ => planned,
    }
}

impl Event {
    /// Commits this event against the batch record: rejects it if it would
    /// leave the state unchanged (the driver would spin forever), otherwise
    /// folds the payload into the sectors ([`spec_apply_changes`]) and moves
    /// the record to the target state, leaving the record dirty for the
    /// driver to persist. `planned` is the state the planner computed for
    /// this event.
    pub fn apply<P>(self, planned: State, job: &mut Job<P>) -> (r: Result<(), PlanError>)
        ensures
            match r {
                Ok(()) => {
                    let target = spec_target_state(self, planned);
                    &&& target != old(job).sectors.inner.state
                    &&& final(job).sectors.inner.state == target
                    &&& spec_apply_changes(
                        self,
                        old(job).sectors.inner.sectors@,
                        final(job).sectors.inner.sectors@,
                    )
                    &&& final(job).sectors.inner.batch_size
                        == old(job).sectors.inner.batch_size
                    &&& final(job).sectors.dirty
                    &&& final(job).ports == old(job).ports
                    &&& final(job).config == old(job).config
                    &&& final(job).ident == old(job).ident
                },
                Err(e) => {
                    &&& e == PlanError::StateUnchanged
                    &&& spec_target_state(self, planned) == old(job).sectors.inner.state
                    &&& *final(job) == *old(job)
                },
            },
    {
        let next: State = if let Event::SetState(s) = &self {
            *s
        } else {
            planned
        };
        if next == job.sectors.inner().state {
            return Err(PlanError::StateUnchanged);
        }
        let record = job.sectors.inner_mut();
        self.apply_changes(record);
        record.state = next;
        Ok(())
    }
}

impl BatchPlanner {
    /// Runs the commit step for an already planned event: the composition of
    /// [`Event::apply`] over the job's record.
    pub fn apply<P>(&self, event: Event, planned: State, job: &mut Job<P>) -> (r: Result<
        (),
        PlanError,
    >)
        ensures
            match r {
                Ok(()) => {
                    let target = spec_target_state(event, planned);
                    &&& target != old(job).sectors.inner.state
                    &&& final(job).sectors.inner.state == target
                    &&& spec_apply_changes(
                        event,
                        old(job).sectors.inner.sectors@,
                        final(job).sectors.inner.sectors@,
                    )
                    &&& final(job).sectors.inner.batch_size
                        == old(job).sectors.inner.batch_size
                    &&& final(job).sectors.dirty
                },
                Err(e) => {
                    &&& e == PlanError::StateUnchanged
                    &&& *final(job) == *old(job)
                },
            },
    {
        event.apply(planned, job)
    }
}

} // verus!
