//! Verified core of a job scheduler: a job queue served over HTTP, with
//! workers that claim jobs, run them (email and webhook jobs) and report
//! the outcome back, retrying failures with exponential backoff.
pub mod executor;
pub mod text;
pub mod error;
pub mod json;
pub mod webhook;
pub mod email;
pub mod models;
pub mod server;
pub mod metrics;
pub mod config;
pub mod benchmark;
