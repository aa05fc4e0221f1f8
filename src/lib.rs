//! A single-threaded bridge between native tasks and a host event loop:
//! a registry of host objects scoped to one task, the one-shot binding that
//! hands a settled host promise back to its task, the driver's task state
//! machine, the failure channel that settles a returned promise, and the
//! marshalling of values at the foreign boundary.

pub mod binding;
pub mod convert;
pub mod driver;
pub mod outcome;
pub mod registry;
pub mod store;
