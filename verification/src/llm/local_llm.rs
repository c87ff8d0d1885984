//! Messages that a local model worker sends while it generates a reply.

use vstd::prelude::*;

verus! {

/// One step of a streamed assistant reply: generation begins, one decoded
/// text chunk arrives, or the reply ends with its full accumulated text.
#[derive(Clone, Debug)]
pub enum Token {
    Start,
    Chunk(String),
    End(String),
}

} // verus!
