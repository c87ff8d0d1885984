//! Pure state of the lab view: a read-only message list over a prompt file.

use vstd::prelude::*;

use crate::component::chat::MessagesComponent;

verus! {

/// The lab view shows the prompt file's conversation and can reload or
/// save it; the file traffic itself is the caller's.
pub struct Lab {
    pub prompts_path: String,
    pub messages: MessagesComponent,
}

} // verus!
