//! Pure state of the terminal front end that drives a decoding session.
//!
//! The widget toolkit delivers keyboard and mouse events and paints the
//! screen; everything it decides is modelled here over plain values, so the
//! scrolling, focus, exit counting and conversation bookkeeping are verified
//! while the toolkit itself stays with the caller.

use vstd::prelude::*;

use crate::component::chat::ChatComponent;
use crate::component::lab::Lab;
use crate::sys::llm::{first_match, Content, PromptTemplate};

pub mod chat;
pub mod lab;

verus! {

/// A key, as far as the front end's decisions read it.
#[derive(Clone, Copy, Debug, PartialEq, Eq, Structural)]
pub enum KeyCode {
    Char(char),
    Enter,
    Esc,
    Tab,
    Other,
}

/// A key press together with whether the control modifier was held.
#[derive(Clone, Copy, Debug, PartialEq, Eq, Structural)]
pub struct KeyEvent {
    pub code: KeyCode,
    pub ctrl: bool,
}

/// A mouse action, as far as the front end's decisions read it.
#[derive(Clone, Copy, Debug, PartialEq, Eq, Structural)]
pub enum MouseKind {
    DownLeft,
    DragLeft,
    ScrollDown,
    ScrollUp,
    Moved,
    Other,
}

/// A mouse event: the action, where it happened, and whether the control
/// modifier was held.
#[derive(Clone, Copy, Debug, PartialEq, Eq, Structural)]
pub struct MouseEvent {
    pub kind: MouseKind,
    pub column: u16,
    pub row: u16,
    pub ctrl: bool,
}

/// A terminal input event.
#[derive(Clone, Copy, Debug, PartialEq, Eq, Structural)]
pub enum Event {
    Key(KeyEvent),
    Mouse(MouseEvent),
    Other,
}

/// A rectangular screen area.
#[derive(Clone, Copy, Debug, PartialEq, Eq, Structural)]
pub struct Rect {
    pub x: u16,
    pub y: u16,
    pub width: u16,
    pub height: u16,
}

impl Rect {
    /// Whether a screen position lies inside the area.
    pub open spec fn spec_contains(&self, column: u16, row: u16) -> bool {
        &&& self.x <= column < self.x + self.width
        &&& self.y <= row < self.y + self.height
    }

    /// An empty area at the origin.
    pub fn zero() -> (r: Rect)
        ensures
            r == (Rect { x: 0u16, y: 0u16, width: 0u16, height: 0u16 }),
    {
        Rect { x: 0, y: 0, width: 0, height: 0 }
    }

    /// Whether a screen position lies inside the area.
    pub fn contains(&self, column: u16, row: u16) -> (r: bool)
        ensures
            r == self.spec_contains(column, row),
    {
        let col32 = column as u32;
        let row32 = row as u32;
        col32 >= self.x as u32 && col32 < self.x as u32 + self.width as u32 && row32 >= self.y
            as u32 && row32 < self.y as u32 + self.height as u32
    }
}

/// What the application loop feeds to the input handler: a terminal event,
/// or the outcome of one generation step (a decoded fragment, or the end of
/// the stream).
#[derive(Clone, Debug)]
pub enum Input {
    Event(Event),
    Token(Option<String>),
}

/// What the application loop should do after an input was handled.
#[derive(Clone, Copy, Debug, PartialEq, Eq, Structural)]
pub enum Output {
    Exit,
    Chat,
    Normal,
}

/// The front end as a whole: the selected tab, the exit-key count, and the
/// two views.
pub struct App {
    pub select_tabs: usize,
    pub exit_n: u8,
    pub chat: ChatComponent,
    pub lab: Lab,
    pub prompts_path: String,
}

/// How one generation-step outcome changes the open assistant turn and the
/// live-stream flag.
///
/// The end of the stream (`None`) drops the stream and leaves the turns
/// alone. A fragment is appended to the last turn's text; while the stream
/// is live the text is then checked against the stop markers, and the first
/// match trims its marker off the end and drops the stream. With no turn to
/// write into, a fragment changes nothing.
pub open spec fn token_step(
    old_contents: Seq<Content>,
    stops: Seq<String>,
    token: Option<String>,
    old_stream: bool,
    new_contents: Seq<Content>,
    new_stream: bool,
) -> bool {
    match token {
        None => new_contents == old_contents && !new_stream,
        Some(tok) => {
            if old_contents.len() == 0 {
                new_contents == old_contents && new_stream == old_stream
            } else {
                let last = old_contents.last();
                let appended = last.message@ + tok@;
                let i = old_contents.len() - 1;
                &&& new_contents.len() == old_contents.len()
                &&& forall|j: int| 0 <= j < i ==> new_contents[j] == old_contents[j]
                &&& new_contents[i as int].role == last.role
                &&& if old_stream {
                    match first_match(stops, appended) {
                        Some(s) => new_contents[i as int].message@ == appended.subrange(
                            0,
                            appended.len() - stops[s]@.len(),
                        ) && !new_stream,
                        None => new_contents[i as int].message@ == appended && new_stream,
                    }
                } else {
                    new_contents[i as int].message@ == appended && !new_stream
                }
            }
        },
    }
}

/// Feed one generation-step outcome into the open assistant turn, as
/// [`token_step`] describes.
pub fn apply_token(
    contents: &mut Vec<Content>,
    template: &PromptTemplate,
    token: Option<String>,
    stream_active: &mut bool,
) -> (r: Output)
    ensures
        r == Output::Normal,
        token_step(
            old(contents)@,
            template.stops@,
            token,
            *old(stream_active),
            final(contents)@,
            *final(stream_active),
        ),
{
    match token {
        None => {
            *stream_active = false;
            Output::Normal
        },
        Some(tok) => {
            let n = contents.len();
            if n == 0 {
                return Output::Normal;
            }
            let mut turn = contents.remove(n - 1);
            turn.message.append(tok.as_str());
            let is_stop = if *stream_active {
                template.post_handle_content(&mut turn.message)
            } else {
                true
            };
            if is_stop {
                *stream_active = false;
            }
            contents.push(turn);
            Output::Normal
        },
    }
}

impl App {
    /// The tab index is always one of the two tabs.
    pub open spec fn wf(&self) -> bool {
        self.select_tabs <= 1
    }

    /// A fresh front end over the given prompt file: the chat tab selected,
    /// no exit key seen, both views in their initial state.
    pub fn new(prompts_path: String) -> (r: App)
        ensures
            r.wf(),
            r.select_tabs == 0,
            r.exit_n == 0,
            r.chat.spec_init(),
            r.lab.messages.spec_init(),
            r.lab.prompts_path@ == prompts_path@,
            r.prompts_path@ == prompts_path@,
    {
        let lab_path = prompts_path.clone();
        App {
            chat: ChatComponent::new(),
            lab: Lab { prompts_path: lab_path, messages: chat::MessagesComponent::new() },
            select_tabs: 0,
            exit_n: 0,
            prompts_path,
        }
    }

    /// Handle the inputs the application decides by itself: generation-step
    /// outcomes, cancelling, tab switching and the double-escape exit. Any
    /// other event belongs to the selected view, and `None` hands it back to
    /// the caller to forward there.
    pub fn handle_input(
        &mut self,
        input: Input,
        contents: &mut Vec<Content>,
        template: &PromptTemplate,
        stream_active: &mut bool,
    ) -> (r: Option<Output>)
        requires
            old(self).wf(),
        ensures
            final(self).wf(),
            final(self).chat == old(self).chat,
            final(self).lab == old(self).lab,
            final(self).prompts_path == old(self).prompts_path,
            match input {
                Input::Token(token) => {
                    &&& final(self).select_tabs == old(self).select_tabs
                    &&& final(self).exit_n == old(self).exit_n
                    &&& r == Some(Output::Normal)
                    &&& token_step(
                        old(contents)@,
                        template.stops@,
                        token,
                        *old(stream_active),
                        final(contents)@,
                        *final(stream_active),
                    )
                },
                Input::Event(ev) => {
                    &&& final(contents)@ == old(contents)@
                    &&& match ev {
                        Event::Key(k) => {
                            if k.code == KeyCode::Char('c') && k.ctrl {
                                &&& r == Some(Output::Normal)
                                &&& !*final(stream_active)
                                &&& final(self).exit_n == 0
                                &&& final(self).select_tabs == old(self).select_tabs
                            } else if k.code == KeyCode::Tab {
                                &&& r == Some(Output::Normal)
                                &&& final(self).select_tabs == (old(self).select_tabs + 1) % 2
                                &&& final(self).exit_n == 0
                                &&& *final(stream_active) == *old(stream_active)
                            } else if k.code == KeyCode::Esc {
                                &&& r == Some(
                                    if old(self).exit_n != 0 {
                                        Output::Exit
                                    } else {
                                        Output::Normal
                                    },
                                )
                                &&& final(self).exit_n == 1
                                &&& final(self).select_tabs == old(self).select_tabs
                                &&& *final(stream_active) == *old(stream_active)
                            } else {
                                &&& r is None
                                &&& final(self).exit_n == 0
                                &&& final(self).select_tabs == old(self).select_tabs
                                &&& *final(stream_active) == *old(stream_active)
                            }
                        },
                        _ => {
                            &&& r is None
                            &&& final(self).exit_n == 0
                            &&& final(self).select_tabs == old(self).select_tabs
                            &&& *final(stream_active) == *old(stream_active)
                        },
                    }
                },
            },
    {
        let last_exit_n = self.exit_n;
        if matches!(input, Input::Event(..)) {
            self.exit_n = 0;
        }
        match input {
            Input::Token(token) => {
                let r = apply_token(contents, template, token, stream_active);
                Some(r)
            },
            Input::Event(Event::Key(k)) => {
                if k.ctrl && k.code == KeyCode::Char('c') {
                    *stream_active = false;
                    Some(Output::Normal)
                } else if k.code == KeyCode::Tab {
                    self.select_tabs = (self.select_tabs + 1) % 2;
                    Some(Output::Normal)
                } else if k.code == KeyCode::Esc {
                    self.exit_n = 1;
                    if last_exit_n != 0 {
                        Some(Output::Exit)
                    } else {
                        Some(Output::Normal)
                    }
                } else {
                    None
                }
            },
            Input::Event(_) => None,
        }
    }
}

} // verus!
