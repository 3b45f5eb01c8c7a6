//! Planning and bookkeeping for resumable bulk file transfers.

pub mod checksum;
pub mod config;
pub mod error;
pub mod executor;
pub mod mkdir;
pub mod paths;
pub mod plan;
pub mod pool;
pub mod progress;
pub mod remote;
pub mod resume;
pub mod text;
pub mod walk;
