//! The logic of a gRPC health check probe.

pub mod cli;
pub mod endpoint;
pub mod json;
pub mod metadata;
pub mod output;
pub mod probe;
pub mod run;
pub mod span;
pub mod status;
pub mod text;
pub mod tls;
