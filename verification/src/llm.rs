//! Token streams produced by a local model.

pub mod local_llm;
