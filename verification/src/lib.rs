//! Worker-side orchestrator for a multi-phase storage-sealing pipeline.
//!
//! A fixed-size batch of sectors is driven through an ordered sequence of
//! cryptographic and on-chain confirmation phases. The heart of the crate is
//! the batch state machine: the closed set of pipeline states, the pure
//! event-driven transition function, the per-phase executor that decides the
//! next side-effecting action, and the failure classification around RPC
//! submission and on-chain polling. All external collaborators (the
//! sector-manager RPC gateway, the proving backend, the cancellable sleep
//! primitive) are reached through the [`rpc::SealerPorts`] trait, so a driver
//! injects them explicitly.

pub mod failure;
pub mod sectors;
pub mod state;
pub mod planner;
pub mod rpc;
pub mod job;
pub mod exec;
pub mod scripted;
pub mod fetcher;

use vstd::prelude::*;

verus! {

/// Number of seconds to cool down after an on-chain submission was reported
/// failed, before asking for a resubmission.
pub const SUBMIT_FAILED_COOLDOWN_SECS: u64 = 30;

} // verus!
