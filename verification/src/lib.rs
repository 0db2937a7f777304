//! Batch PDF analysis library: a single-threaded PDF-engine worker service
//! with typed request/response dispatch, a two-stage pluggable pipeline
//! (analyzers over each loaded document, then output modules over the whole
//! batch), and the orchestration that drives a batch of files through the
//! worker while reporting progress.

pub mod analyzer;
pub mod app;
pub mod channels;
pub mod config;
pub mod engine;
pub mod error;
pub mod output;
pub mod pdf;
pub mod text;
