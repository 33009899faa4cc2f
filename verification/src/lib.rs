//! The decisions of a forester worker: the phases of an epoch, the
//! eligibility of a forester in a light slot, the retry and backoff of
//! transaction batches, the chunking and bounded scheduling of queue work,
//! the rollover trigger, and the instructions that all of these lead to.
//! Nothing here sleeps, spawns or talks to the ledger: a driver performs the
//! actions that these functions name and reports back what happened.

pub mod types;
pub mod protocol;
pub mod eligibility;
pub mod backoff;
pub mod batch;
pub mod rollover;
pub mod instructions;
pub mod drainer;
pub mod counter;
pub mod controller;
pub mod active_work;
pub mod manager;
pub mod service;
pub mod encode;
pub mod slot_tracker;
pub mod escrow;
