//! Sampling: the memory snapshot and the per-process records.

pub mod meminfo;
pub mod process;

pub use meminfo::{MemInfo, SamplerError};
pub use process::{ProcessInfo, ProcessView};
