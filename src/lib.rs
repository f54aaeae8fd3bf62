//! Client library for a remote application-profiling service: the job
//! status lifecycle, the mapping of response bodies to typed results, the
//! request credentials, and the decisions of the blocking wait loop.

pub mod client;
pub mod json;
pub mod model;
pub mod parse;
pub mod render;
pub mod status;
pub mod wait;

pub use client::{ClientConfig, ProfileStatusResult, Profiler, UploadError};
pub use model::{Profile, ProfileResult, ProfileScenario, ProfileScenarios};
pub use status::ProfileStatus;
pub use wait::{WaitStep, POLL_INTERVAL_SECS};
