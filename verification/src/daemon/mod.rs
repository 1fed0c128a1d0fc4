//! The control loop: what each tick decides.

pub mod service;

pub use service::{DaemonService, LoopAction, LoopState, Phase, TickOutcome};
