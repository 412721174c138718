//! The core of a fuzzing engine: restart-safe stage scheduling, the pull-based
//! mutational stage, and the observer and feedback protocol that ties
//! executors, mutators and the corpus into one fuzzing round.
//!
//! Collaborators that the core only calls into (mutators, schedulers,
//! executors, event managers, evaluators) appear as traits. Each trait names,
//! with a spec function per method, what one call of that method may do; the
//! contracts of the core are stated over those names.

pub mod corpus;
pub mod error;
pub mod events;
pub mod executors;
pub mod feedbacks;
pub mod fuzzer;
pub mod metadata;
pub mod mutators;
pub mod observers;
pub mod schedulers;
pub mod stages;
pub mod state;
