//! Pure state of the chat view: the scrollable message list and the
//! bookkeeping around the draft being composed in the caller's editor
//! widget.

use vstd::prelude::*;

use crate::component::{Event, MouseEvent, MouseKind, Rect};
use crate::llm::local_llm::Token;
use crate::sys::llm::{Content, Role};

verus! {

/// What the chat view is fed: a terminal event, or one streamed message
/// from the model worker.
#[derive(Clone, Debug)]
pub enum Input {
    Event(Event),
    Message(Token),
}

/// What the application loop should do after the chat view handled an
/// input.
#[derive(Clone, Copy, Debug, PartialEq, Eq, Structural)]
pub enum Output {
    Exit,
    Chat,
    Normal,
}

/// A signed scroll step applied to an unsigned cursor coordinate, clamped
/// to the coordinate's range.
pub open spec fn scrolled(cur: u16, delta: int) -> u16 {
    if cur - delta < 0 {
        0u16
    } else if cur - delta > 0xffff {
        0xffffu16
    } else {
        (cur - delta) as u16
    }
}

/// Apply a signed scroll step to a cursor coordinate, clamped to its range.
fn scroll_by(cur: u16, delta: i32) -> (r: u16)
    requires
        -0x10000 <= delta <= 0x10000,
    ensures
        r == scrolled(cur, delta as int),
{
    let moved: i32 = cur as i32 - delta;
    if moved < 0 {
        0
    } else if moved > 0xffff {
        0xffff
    } else {
        moved as u16
    }
}

/// The scrollable message list: its scroll cursor, the last mouse event
/// seen, whether the view follows the newest line, its screen area and
/// whether it has the focus.
#[derive(Clone, Copy, Debug)]
pub struct MessagesComponent {
    pub cursor: (u16, u16),
    pub last_mouse_event: MouseEvent,
    pub lock_on_bottom: bool,
    pub area: Rect,
    pub active: bool,
}

/// How a mouse drag scrolls the list: the cursor moves against the drag by
/// the distance to the last recorded event, and any vertical motion
/// releases the lock on the newest line.
pub open spec fn spec_move_scoll(s: MessagesComponent, event: MouseEvent) -> MessagesComponent {
    let dy = event.row - s.last_mouse_event.row;
    let dx = event.column - s.last_mouse_event.column;
    MessagesComponent {
        cursor: (
            if dy != 0 {
                scrolled(s.cursor.0, dy)
            } else {
                s.cursor.0
            },
            if dx != 0 {
                scrolled(s.cursor.1, dx)
            } else {
                s.cursor.1
            },
        ),
        last_mouse_event: s.last_mouse_event,
        lock_on_bottom: if dy != 0 {
            false
        } else {
            s.lock_on_bottom
        },
        area: s.area,
        active: s.active,
    }
}

/// How the focus and drag bookkeeping records a mouse event: a left press
/// moves the focus to wherever the press landed, a left drag while focused
/// scrolls the list, and the event is remembered.
pub open spec fn spec_update_active(s: MessagesComponent, event: MouseEvent) -> MessagesComponent {
    let focused = if event.kind == MouseKind::DownLeft {
        s.area.spec_contains(event.column, event.row)
    } else {
        s.active
    };
    let refocused = MessagesComponent {
        cursor: s.cursor,
        last_mouse_event: s.last_mouse_event,
        lock_on_bottom: s.lock_on_bottom,
        area: s.area,
        active: focused,
    };
    let dragged = if event.kind == MouseKind::DragLeft && focused {
        spec_move_scoll(refocused, event)
    } else {
        refocused
    };
    MessagesComponent {
        cursor: dragged.cursor,
        last_mouse_event: event,
        lock_on_bottom: dragged.lock_on_bottom,
        area: dragged.area,
        active: dragged.active,
    }
}

/// How the mouse wheel scrolls the list: six columns sideways with control
/// held, three rows otherwise; scrolling the rows up releases the lock on
/// the newest line.
pub open spec fn spec_wheel(s: MessagesComponent, event: MouseEvent) -> MessagesComponent {
    let cursor = match event.kind {
        MouseKind::ScrollDown => if event.ctrl {
            (s.cursor.0, s.cursor.1.saturating_add(6))
        } else {
            (s.cursor.0.saturating_add(3), s.cursor.1)
        },
        MouseKind::ScrollUp => if event.ctrl {
            (s.cursor.0, if s.cursor.1 > 6 {
                (s.cursor.1 - 6) as u16
            } else {
                0u16
            })
        } else {
            (
                if s.cursor.0 > 3 {
                    (s.cursor.0 - 3) as u16
                } else {
                    0u16
                },
                s.cursor.1,
            )
        },
        _ => s.cursor,
    };
    MessagesComponent {
        cursor,
        last_mouse_event: s.last_mouse_event,
        lock_on_bottom: if event.kind == MouseKind::ScrollUp && !event.ctrl {
            false
        } else {
            s.lock_on_bottom
        },
        area: s.area,
        active: s.active,
    }
}

impl MessagesComponent {
    /// The state a fresh message list starts in.
    pub open spec fn spec_init(&self) -> bool {
        &&& self.cursor == (0u16, 0u16)
        &&& self.lock_on_bottom
        &&& self.active
        &&& self.area == (Rect { x: 0u16, y: 0u16, width: 0u16, height: 0u16 })
        &&& self.last_mouse_event == (MouseEvent {
            kind: MouseKind::Moved,
            column: 0u16,
            row: 0u16,
            ctrl: false,
        })
    }

    /// A fresh message list: unscrolled, following the newest line, focused.
    pub fn new() -> (r: MessagesComponent)
        ensures
            r.spec_init(),
    {
        MessagesComponent {
            cursor: (0, 0),
            lock_on_bottom: true,
            active: true,
            area: Rect::zero(),
            last_mouse_event: MouseEvent {
                kind: MouseKind::Moved,
                column: 0,
                row: 0,
                ctrl: false,
            },
        }
    }

    /// Scroll by how far the mouse moved since the last recorded event.
    pub fn move_scoll(&mut self, event: MouseEvent)
        ensures
            *final(self) == spec_move_scoll(*old(self), event),
    {
        let delta_y: i32 = event.row as i32 - self.last_mouse_event.row as i32;
        let delta_x: i32 = event.column as i32 - self.last_mouse_event.column as i32;
        if delta_x != 0 {
            self.cursor.1 = scroll_by(self.cursor.1, delta_x);
        }
        if delta_y != 0 {
            self.cursor.0 = scroll_by(self.cursor.0, delta_y);
            self.lock_on_bottom = false;
        }
    }

    /// Record a mouse event, moving the focus and applying any drag.
    pub fn update_active(&mut self, event: MouseEvent)
        ensures
            *final(self) == spec_update_active(*old(self), event),
    {
        if event.kind == MouseKind::DownLeft {
            self.active = self.area.contains(event.column, event.row);
        }
        if event.kind == MouseKind::DragLeft && self.active {
            self.move_scoll(event);
        }
        self.last_mouse_event = event;
    }

    /// Fit the scroll cursor to the text about to be shown: `line_n` lines
    /// in the given area, whose frame takes three rows. When the text
    /// overflows, reaching the last page locks the view to it and the lock
    /// holds the cursor there; when it fits, the cursor returns to the top.
    pub fn clamp_scroll(&mut self, line_n: usize, area: Rect)
        requires
            area.height >= 3,
        ensures
            final(self).area == area,
            ({
                let max_line = area.height - 3;
                if line_n > max_line {
                    let max_cursor = ((line_n - max_line) as usize) as u16;
                    &&& final(self).lock_on_bottom == (old(self).lock_on_bottom || old(
                        self,
                    ).cursor.0 >= max_cursor)
                    &&& final(self).cursor.0 == if final(self).lock_on_bottom {
                        max_cursor
                    } else {
                        old(self).cursor.0
                    }
                } else {
                    &&& final(self).cursor.0 == 0
                    &&& final(self).lock_on_bottom == old(self).lock_on_bottom
                }
            }),
            final(self).cursor.1 == old(self).cursor.1,
            final(self).last_mouse_event == old(self).last_mouse_event,
            final(self).active == old(self).active,
    {
        self.area = area;
        let max_line = (area.height - 3) as usize;
        if line_n > max_line {
            let max_cursor = line_n - max_line;
            let max_cursor16 = #[verifier::truncate] (max_cursor as u16);
            if self.cursor.0 >= max_cursor16 {
                self.lock_on_bottom = true;
            }
            if self.lock_on_bottom {
                self.cursor.0 = max_cursor16;
            }
        } else {
            self.cursor.0 = 0;
        }
    }

    /// Handle an input: a mouse event first turns the wheel, then goes
    /// through the focus and drag bookkeeping; everything else is ignored.
    pub fn handler_input(&mut self, input: Input)
        ensures
            match input {
                Input::Event(Event::Mouse(event)) => *final(self) == spec_update_active(
                    spec_wheel(*old(self), event),
                    event,
                ),
                _ => *final(self) == *old(self),
            },
    {
        match input {
            Input::Event(Event::Mouse(event)) => {
                match event.kind {
                    MouseKind::ScrollDown => {
                        if event.ctrl {
                            self.cursor.1 = self.cursor.1.saturating_add(6);
                        } else {
                            self.cursor.0 = self.cursor.0.saturating_add(3);
                        }
                    },
                    MouseKind::ScrollUp => {
                        if event.ctrl {
                            self.cursor.1 = if self.cursor.1 > 6 {
                                self.cursor.1 - 6
                            } else {
                                0
                            };
                        } else {
                            self.cursor.0 = if self.cursor.0 > 3 {
                                self.cursor.0 - 3
                            } else {
                                0
                            };
                            self.lock_on_bottom = false;
                        }
                    },
                    _ => {},
                }
                self.update_active(event);
            },
            _ => {},
        }
    }
}

/// The display width of one character in the message list: ASCII is
/// narrow, everything else counts double.
pub open spec fn char_width(c: char) -> int {
    if (c as int) < 128 {
        1
    } else {
        2
    }
}

/// The display width of a text.
pub open spec fn text_width(s: Seq<char>) -> int
    decreases s.len(),
{
    if s.len() == 0 {
        0
    } else {
        text_width(s.drop_last()) + char_width(s.last())
    }
}

/// The concatenation of a sequence of texts.
pub open spec fn concat_texts(ls: Seq<Seq<char>>) -> Seq<char>
    decreases ls.len(),
{
    if ls.len() == 0 {
        Seq::<char>::empty()
    } else {
        concat_texts(ls.drop_last()) + ls.last()
    }
}

/// What one wrapped line of a message looks like. A line is cut as soon as
/// its width reaches the limit or a newline arrives, so every line but the
/// last is non-empty, holds no newline before its final character, ends on
/// reaching the limit or on a newline, and was under the limit before its
/// final character (unless it is that one character). The last line is
/// whatever remained: still under the limit, with no newline.
pub open spec fn wrapped_line(l: Seq<char>, max: int, is_last: bool) -> bool {
    if is_last {
        &&& text_width(l) < max || l.len() == 0
        &&& forall|t: int| 0 <= t < l.len() ==> l[t] != '\n'
    } else {
        &&& l.len() >= 1
        &&& text_width(l) >= max || l.last() == '\n'
        &&& forall|t: int| 0 <= t < l.len() - 1 ==> l[t] != '\n'
        &&& text_width(l.drop_last()) < max || l.len() <= 1
    }
}

/// Break a message into display lines no wider than `max_len`, cutting at
/// newlines as well; nothing is lost, the lines concatenate back to the
/// message.
pub fn wrap_message(message: &String, max_len: usize) -> (lines: Vec<String>)
    requires
        max_len <= 0xffff,
    ensures
        lines@.len() >= 1,
        concat_texts(lines@.map_values(|l: String| l@)) == message@,
        forall|f: int|
            0 <= f < lines@.len() - 1 ==> #[trigger] wrapped_line(
                lines@[f]@,
                max_len as int,
                false,
            ),
        wrapped_line(lines@.last()@, max_len as int, true),
{
    let s = message.as_str();
    let n = s.unicode_len();
    let mut lines: Vec<String> = Vec::new();
    let mut start: usize = 0;
    let mut len: usize = 0;
    let mut i: usize = 0;
    while i < n
        invariant
            n == s@.len(),
            s@ == message@,
            max_len <= 0xffff,
            start <= i <= n,
            len == text_width(s@.subrange(start as int, i as int)),
            len < max_len || start == i,
            forall|t: int| start <= t < i ==> s@[t] != '\n',
            concat_texts(lines@.map_values(|l: String| l@)) == s@.take(start as int),
            forall|f: int|
                0 <= f < lines@.len() ==> #[trigger] wrapped_line(
                    lines@[f]@,
                    max_len as int,
                    false,
                ),
        decreases n - i,
    {
        let c = s.get_char(i);
        let w: usize = if (c as u32) < 128 {
            1
        } else {
            2
        };
        len = len + w;
        i = i + 1;
        proof {
            let seg = s@.subrange(start as int, i as int);
            assert(seg.drop_last() =~= s@.subrange(start as int, i as int - 1));
        }
        if len >= max_len || c == '\n' {
            let ghost prev = lines@.map_values(|l: String| l@);
            let line = String::from_str(s.substring_char(start, i));
            lines.push(line);
            proof {
                let mapped = lines@.map_values(|l: String| l@);
                assert(mapped.drop_last() =~= prev);
                assert(mapped.last() == s@.subrange(start as int, i as int));
                assert(s@.take(i as int) =~= s@.take(start as int) + s@.subrange(
                    start as int,
                    i as int,
                ));
            }
            start = i;
            len = 0;
        }
    }
    let ghost prev = lines@.map_values(|l: String| l@);
    let tail = String::from_str(s.substring_char(start, n));
    lines.push(tail);
    proof {
        let mapped = lines@.map_values(|l: String| l@);
        assert(mapped.drop_last() =~= prev);
        assert(mapped.last() == s@.subrange(start as int, n as int));
        assert(s@.take(start as int) + s@.subrange(start as int, n as int) =~= message@);
    }
    lines
}

/// The chat view: the message list, the drag state of the draft editor's
/// scroll, the double-escape exit count, the last input shown in the status
/// line, and whether a submit rewrites the last assistant turn instead of
/// opening a new exchange.
pub struct ChatComponent {
    pub messages: MessagesComponent,
    pub cursor_delta: (i32, i32),
    pub last_mouse_event: MouseEvent,
    pub active: bool,
    pub area: Rect,
    pub exit_n: u8,
    pub event: String,
    pub rewrite: bool,
}

impl ChatComponent {
    /// The state a fresh chat view starts in.
    pub open spec fn spec_init(&self) -> bool {
        &&& self.messages.spec_init()
        &&& self.cursor_delta == (0i32, 0i32)
        &&& self.last_mouse_event == (MouseEvent {
            kind: MouseKind::Moved,
            column: 0u16,
            row: 0u16,
            ctrl: false,
        })
        &&& !self.active
        &&& self.area == (Rect { x: 0u16, y: 0u16, width: 0u16, height: 0u16 })
        &&& self.exit_n == 0
        &&& self.event@ == Seq::<char>::empty()
        &&& !self.rewrite
    }

    /// A fresh chat view.
    pub fn new() -> (r: ChatComponent)
        ensures
            r.spec_init(),
    {
        ChatComponent {
            messages: MessagesComponent::new(),
            exit_n: 0,
            event: String::new(),
            rewrite: false,
            cursor_delta: (0, 0),
            last_mouse_event: MouseEvent {
                kind: MouseKind::Moved,
                column: 0,
                row: 0,
                ctrl: false,
            },
            active: false,
            area: Rect::zero(),
        }
    }

    /// Remember how far the mouse moved since the last recorded event; the
    /// draft editor is scrolled by this much.
    pub fn move_scoll(&mut self, event: MouseEvent)
        ensures
            final(self).cursor_delta.0 == event.row - old(self).last_mouse_event.row,
            final(self).cursor_delta.1 == event.column - old(self).last_mouse_event.column,
            final(self).messages == old(self).messages,
            final(self).last_mouse_event == old(self).last_mouse_event,
            final(self).active == old(self).active,
            final(self).area == old(self).area,
            final(self).exit_n == old(self).exit_n,
            final(self).event == old(self).event,
            final(self).rewrite == old(self).rewrite,
    {
        let delta_y: i32 = event.row as i32 - self.last_mouse_event.row as i32;
        let delta_x: i32 = event.column as i32 - self.last_mouse_event.column as i32;
        self.cursor_delta = (delta_y, delta_x);
    }

    /// Record a mouse event: a left press moves the focus to wherever the
    /// press landed; a left drag while focused scrolls the draft editor,
    /// anything else stills it.
    pub fn update_active(&mut self, event: MouseEvent)
        ensures
            final(self).active == if event.kind == MouseKind::DownLeft {
                old(self).area.spec_contains(event.column, event.row)
            } else {
                old(self).active
            },
            final(self).cursor_delta.0 == if event.kind == MouseKind::DragLeft
                && final(self).active {
                event.row - old(self).last_mouse_event.row
            } else {
                0int
            },
            final(self).cursor_delta.1 == if event.kind == MouseKind::DragLeft
                && final(self).active {
                event.column - old(self).last_mouse_event.column
            } else {
                0int
            },
            final(self).last_mouse_event == event,
            final(self).messages == old(self).messages,
            final(self).area == old(self).area,
            final(self).exit_n == old(self).exit_n,
            final(self).event == old(self).event,
            final(self).rewrite == old(self).rewrite,
    {
        if event.kind == MouseKind::DownLeft {
            self.active = self.area.contains(event.column, event.row);
        }
        if event.kind == MouseKind::DragLeft && self.active {
            self.move_scoll(event);
        } else {
            self.cursor_delta = (0, 0);
        }
        self.last_mouse_event = event;
    }

    /// Count one press of the escape key; the view exits on reaching three,
    /// which takes two presses in a row.
    pub fn note_escape(&mut self) -> (exit: bool)
        ensures
            final(self).exit_n == if old(self).exit_n <= 253 {
                (old(self).exit_n + 2) as u8
            } else {
                255u8
            },
            exit == (final(self).exit_n >= 3),
            final(self).messages == old(self).messages,
            final(self).cursor_delta == old(self).cursor_delta,
            final(self).last_mouse_event == old(self).last_mouse_event,
            final(self).active == old(self).active,
            final(self).area == old(self).area,
            final(self).event == old(self).event,
            final(self).rewrite == old(self).rewrite,
    {
        self.exit_n = self.exit_n.saturating_add(2);
        self.exit_n >= 3
    }

    /// Let the escape count decay after an event that was not an escape.
    pub fn decay_exit(&mut self)
        ensures
            final(self).exit_n == if old(self).exit_n <= 1 {
                0u8
            } else {
                (old(self).exit_n - 1) as u8
            },
            final(self).messages == old(self).messages,
            final(self).cursor_delta == old(self).cursor_delta,
            final(self).last_mouse_event == old(self).last_mouse_event,
            final(self).active == old(self).active,
            final(self).area == old(self).area,
            final(self).event == old(self).event,
            final(self).rewrite == old(self).rewrite,
    {
        self.exit_n = if self.exit_n > 1 {
            self.exit_n - 1
        } else {
            0
        };
    }

    /// Take the last turn's text back into the draft for rewriting, if that
    /// turn is an assistant turn: its text is returned for the editor and
    /// cleared from the turn, and the next submit will rewrite it.
    pub fn pop_last_assaistant(&mut self, contents: &mut Vec<Content>) -> (r: Option<String>)
        ensures
            ({
                let n = old(contents)@.len();
                if n > 0 && old(contents)@.last().role == Role::Assistant {
                    &&& r is Some
                    &&& r->0@ == old(contents)@.last().message@
                    &&& final(contents)@.len() == n
                    &&& forall|j: int| 0 <= j < n - 1 ==> final(contents)@[j] == old(
                        contents,
                    )@[j]
                    &&& final(contents)@.last().role == Role::Assistant
                    &&& final(contents)@.last().message@ == Seq::<char>::empty()
                    &&& final(self).rewrite
                } else {
                    &&& r is None
                    &&& final(contents)@ == old(contents)@
                    &&& final(self).rewrite == old(self).rewrite
                }
            }),
            final(self).messages == old(self).messages,
            final(self).cursor_delta == old(self).cursor_delta,
            final(self).last_mouse_event == old(self).last_mouse_event,
            final(self).active == old(self).active,
            final(self).area == old(self).area,
            final(self).exit_n == old(self).exit_n,
            final(self).event == old(self).event,
    {
        let n = contents.len();
        if n == 0 {
            return None;
        }
        let is_assistant = matches!(contents[n - 1].role, Role::Assistant);
        if !is_assistant {
            return None;
        }
        let mut turn = contents.remove(n - 1);
        let text = turn.message;
        turn.message = String::new();
        contents.push(turn);
        self.rewrite = true;
        Some(text)
    }

    /// Submit the draft: a rewrite replaces the last turn's text, otherwise
    /// the draft opens a new exchange as a user turn followed by an empty
    /// assistant turn; either way the list snaps back to the newest line.
    pub fn submit_message(&mut self, contents: &mut Vec<Content>, message: String)
        requires
            old(self).rewrite ==> old(contents)@.len() > 0,
        ensures
            ({
                if old(self).rewrite {
                    let n = old(contents)@.len();
                    &&& final(contents)@.len() == n
                    &&& forall|j: int| 0 <= j < n - 1 ==> final(contents)@[j] == old(
                        contents,
                    )@[j]
                    &&& final(contents)@.last().role == old(contents)@.last().role
                    &&& final(contents)@.last().message@ == message@
                    &&& !final(self).rewrite
                } else {
                    &&& final(contents)@.len() == old(contents)@.len() + 2
                    &&& forall|j: int| 0 <= j < old(contents)@.len() ==> final(contents)@[j]
                        == old(contents)@[j]
                    &&& final(contents)@[old(contents)@.len() as int].role == Role::User
                    &&& final(contents)@[old(contents)@.len() as int].message@ == message@
                    &&& final(contents)@.last().role == Role::Assistant
                    &&& final(contents)@.last().message@ == Seq::<char>::empty()
                    &&& !final(self).rewrite
                }
            }),
            final(self).messages.lock_on_bottom,
            final(self).messages.cursor == old(self).messages.cursor,
            final(self).messages.last_mouse_event == old(self).messages.last_mouse_event,
            final(self).messages.area == old(self).messages.area,
            final(self).messages.active == old(self).messages.active,
            final(self).cursor_delta == old(self).cursor_delta,
            final(self).last_mouse_event == old(self).last_mouse_event,
            final(self).active == old(self).active,
            final(self).area == old(self).area,
            final(self).exit_n == old(self).exit_n,
            final(self).event == old(self).event,
    {
        if self.rewrite {
            let n = contents.len();
            let mut turn = contents.remove(n - 1);
            turn.message = message;
            contents.push(turn);
            self.rewrite = false;
        } else {
            let user = Content { role: Role::User, message };
            contents.push(user);
            contents.push(Content { role: Role::Assistant, message: String::new() });
        }
        self.messages.lock_on_bottom = true;
    }
}

} // verus!
