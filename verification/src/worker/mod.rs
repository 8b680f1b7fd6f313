//! The workers.

mod activity;
pub mod calls;
pub mod laws;
pub mod runtime;

pub use activity::{ActivityError, ActivityRegistry};
pub use runtime::{
    Held, HeldView, RunAction, RunActionView, RunEvent, RunEventView, RunState, RunStateView,
    SlotAction, Worker, WorkerConfig, WorkerError, WorkerErrorView, WorkerId,
};
