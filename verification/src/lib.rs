//! Verified core of an HTTP service instrumentation layer: trace-context
//! propagation, a trace-correlated log line formatter, a closed metric
//! catalogue, the provider registry's lifecycle and the decisions of the
//! request pipeline's middleware stages.

pub mod formatter;
pub mod headers;
pub mod log_lines;
pub mod logger;
pub mod meter;
pub mod middleware;
pub mod oltp;
pub mod path;
pub mod propagation;
pub mod registry;
pub mod request;
pub mod resource;
pub mod source_path;
pub mod text;
