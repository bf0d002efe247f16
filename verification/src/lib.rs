//! Supervision of an external interpreter process: input checks, deadlines,
//! stream classification, retry policy and first-run installation, each as
//! verified logic over plain values.

pub mod backoff;
pub mod bootstrap;
pub mod executor;
pub mod job;
pub mod lock;
pub mod outcome;
pub mod package;
pub mod pipeline;
pub mod retry;
pub mod scan;
pub mod schedule;
pub mod status;
pub mod stream;
pub mod text;
pub mod validate;
