//! Pipeline orchestration core: a graph extractor over JSON payloads, an
//! in-memory pipeline registry, run statistics, a file-backed work queue and
//! the decisions of the worker that drains it.

pub mod branding;
pub mod bridge;
pub mod cdif;
pub mod config;
pub mod extractor;
pub mod gap_analysis;
pub mod health;
pub mod json;
pub mod logging;
pub mod monitoring;
pub mod orchestrator;
pub mod parser;
pub mod platform;
pub mod queue;
pub mod utils;
pub mod worker;
