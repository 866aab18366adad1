//! Orchestration of `jj git clone` for repositories hosted on GitHub.

pub mod error;
pub mod metadata;
pub mod pipeline;
pub mod source;
pub mod supervisor;
pub mod text;
pub mod wiring;
