//! Runtime support for an interpreter of guest programs: unwinding across
//! protected calls, emulated synchronization primitives, thread-local storage
//! and guest threads, all driven one guest instruction at a time by a
//! cooperative scheduler.
//!
//! Every executable function carries a contract that relates the state of the
//! [`eval_context::MiriEvalContext`] after the call to its state before, stated
//! over the mathematical view [`eval_context::MachineView`].

pub mod errors;
pub mod scalar;
pub mod thread;
pub mod sync;
pub mod shims;
pub mod helpers;
pub mod eval_context;
