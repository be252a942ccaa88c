//! Slot-based candidate production for a chain that derives its consensus
//! from a primary ("relay") chain.
//!
//! Once per observed primary-chain event, a collator node attempts to build a
//! block candidate within a bounded time budget.  The crate provides:
//!
//! * the slot window calculator, a pure function from wall-clock time and a
//!   fixed slot duration to a slot index and an attempt deadline;
//! * the inherent data bag, a keyed collection of encoded environment facts a
//!   block must embed;
//! * the per-attempt orchestration machine, which sequences provider-set
//!   creation, inherent-data materialization and the authoring attempt, and
//!   collapses every failure into "no candidate for this round";
//! * an exclusive-access handle around the stateful authoring engine, and a
//!   model of its locking protocol that proves no two attempts ever hold the
//!   engine at the same time.
//!
//! The asynchronous capabilities themselves (the provider factory, the
//! provider set and the authoring engine) are ports: traits the host
//! implements.  Everything the crate decides is verified.

pub mod data;
pub mod exclusion;
pub mod inherent;
pub mod machine;
pub mod orchestrator;
pub mod ports;
pub mod slots;
