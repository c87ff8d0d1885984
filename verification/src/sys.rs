//! Story-world data carried alongside a conversation: non-player characters,
//! places and the generators that turn them into chat prompts.

use vstd::prelude::*;

use crate::sys::llm::{Content, Role};

pub mod llm;

verus! {

/// A non-player character that a conversation can be held with.
pub struct NPC {
    pub name: String,
    pub description: String,
    pub character: Vec<String>,
    pub mood: String,
    pub experience: Vec<String>,
    pub current_map: String,
    pub state: String,
    pub player_relation: String,
    pub player_character: String,
}

/// A place in the story world and the characters present there.
pub struct WorldMap {
    pub name: String,
    pub description: String,
    pub npcs: Vec<String>,
}

/// The story world as a whole.
pub struct World {
    pub description: String,
}

/// Prompt used to generate narrative text.
pub struct StoryGenerator {
    pub prompt: String,
}

/// Prompt templates used to generate chat turns.
pub struct ChatGenerator {
    pub templates: String,
}

impl NPC {
    /// The system turn that opens a chat with the given character.
    pub fn chat_system(&self, npc: &NPC) -> (r: Content)
        ensures
            r.role == Role::System,
            r.message@ == Seq::<char>::empty(),
    {
        Content { role: Role::System, message: String::new() }
    }
}

} // verus!
