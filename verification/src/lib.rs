//! A conversation decoding engine for driving a locally loaded language
//! model: prompt encoding, bounded-batch forward-pass scheduling, sampling
//! strategy state, incremental byte-to-text decoding and stop-sequence
//! detection, together with the pure state of the terminal front end that
//! drives it.

pub mod component;
pub mod config;
pub mod llm;
pub mod sys;
