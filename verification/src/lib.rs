//! Core of an interactive HTTP request composer: a shell-word tokenizer, a
//! curl-style command importer, a request data model, a wire-level request
//! planner, and a pollable, cancellable request lifecycle.

pub mod color;
pub mod curl;
pub mod engine;
pub mod request;
pub mod setting;
pub mod strutil;
pub mod tokenizer;
