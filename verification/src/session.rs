//! The event loop's state: the history cursor over exchange pairs, the
//! exit / send / dirty flags, the scroll offset and the last rendered
//! content. Key handling is a pure transition on this state plus an
//! effect for the surrounding loop to perform; the cursor invariant is
//! preserved by every operation.

use crate::conversation::{Converation, Message};
use vstd::arithmetic::div_mod::lemma_fundamental_div_mod;
use vstd::prelude::*;

verus! {

/// A decoded key input, as the keybinding surface sees it. `Other` is any
/// key not bound to a control action; it inserts into the composition
/// buffer while no reply is streaming.
#[derive(Clone, Copy, PartialEq, Eq, Structural, Debug)]
pub enum KeyInput {
    Esc,
    Enter,
    CtrlQ,
    CtrlS,
    CtrlU,
    CtrlD,
    Up,
    Down,
    Left,
    Right,
    Other,
}

/// What the surrounding loop must do after a key is handled, beyond the
/// state transition itself.
#[derive(Clone, Copy, PartialEq, Eq, Structural, Debug)]
pub enum KeyEffect {
    Nothing,
    /// Clear the shared cancellation flag, halting the active drain.
    StopStreaming,
    /// Reset the composition buffer.
    ClearComposition,
    /// Forward the key to the composition buffer.
    InsertIntoComposition,
}

/// What the renderer should do this tick.
#[derive(Clone, Copy, PartialEq, Eq, Structural, Debug)]
pub enum RenderPlan {
    /// No exchange is displayed: render only the composition buffer,
    /// full-viewport.
    ComposingOnly,
    /// The displayed reply changed or the view is dirty: re-render it.
    Redraw,
    /// Content and view are unchanged: skip the re-render.
    Unchanged,
}

/// The event loop's state.
#[derive(Debug)]
pub struct Session {
    /// Count of leading non-exchange messages (0 or 1), fixed at creation.
    pub sysmsgs_len: usize,
    /// Count of exchange messages appended so far; grows by exactly 2 per
    /// completed send.
    pub messages_len: usize,
    /// Index of the user message of the displayed exchange; the displayed
    /// reply sits at `cursor + 1`.
    pub cursor: usize,
    pub exit: bool,
    pub send: bool,
    pub rerender: bool,
    pub scroll: usize,
    pub last_rendered: String,
}

impl Session {
    /// The cursor invariant: the cursor starts at `sysmsgs_len`, moves in
    /// steps of two, and never passes the user message of the last
    /// completed exchange.
    pub open spec fn wf(self) -> bool {
        &&& self.messages_len % 2 == 0
        &&& self.sysmsgs_len + self.messages_len <= usize::MAX
        &&& self.sysmsgs_len <= self.cursor
        &&& (self.cursor - self.sysmsgs_len) % 2 == 0
        &&& if self.messages_len == 0 {
            self.cursor == self.sysmsgs_len
        } else {
            self.cursor + 2 <= self.sysmsgs_len + self.messages_len
        }
    }

    /// The state between `advance_for_new_turn` and `finish_send`: the
    /// cursor may already sit on the slot the new turn is about to fill,
    /// one step past the last completed exchange.
    pub open spec fn wf_sending(self) -> bool {
        &&& self.messages_len % 2 == 0
        &&& self.sysmsgs_len + self.messages_len + 2 <= usize::MAX
        &&& self.sysmsgs_len <= self.cursor
        &&& (self.cursor - self.sysmsgs_len) % 2 == 0
        &&& self.cursor <= self.sysmsgs_len + self.messages_len
    }

    /// A fresh session over a newly created conversation: every message
    /// the conversation starts with is a leading system message, and the
    /// cursor points at the first (still empty) exchange slot.
    pub fn new(conv: &Converation) -> (s: Session)
        ensures
            s.sysmsgs_len == conv.messages@.len(),
            s.cursor == s.sysmsgs_len,
            s.messages_len == 0,
            !s.exit,
            !s.send,
            !s.rerender,
            s.scroll == 0,
            s.last_rendered@ == Seq::<char>::empty(),
            s.wf(),
    {
        let n = conv.messages.len();
        Session {
            sysmsgs_len: n,
            messages_len: 0,
            cursor: n,
            exit: false,
            send: false,
            rerender: false,
            scroll: 0,
            last_rendered: String::new(),
        }
    }

    /// Whether the cursor invariant holds; lets unverified callers test
    /// it before operations that require it.
    pub fn check_invariant(&self) -> (b: bool)
        ensures
            b == self.wf(),
    {
        match self.sysmsgs_len.checked_add(self.messages_len) {
            None => false,
            Some(total) => self.messages_len % 2 == 0 && self.sysmsgs_len <= self.cursor
                && (self.cursor - self.sysmsgs_len) % 2 == 0 && if self.messages_len == 0 {
                self.cursor == self.sysmsgs_len
            } else {
                self.cursor <= total - 2
            },
        }
    }

    pub open spec fn spec_can_go_back(self) -> bool {
        self.cursor > self.sysmsgs_len
    }

    pub open spec fn spec_can_go_forward(self) -> bool {
        self.cursor + 2 < self.sysmsgs_len + self.messages_len
    }

    /// The state after one step back through history, a no-op at the
    /// first exchange.
    pub open spec fn back(self) -> Session {
        if self.spec_can_go_back() {
            Session { cursor: (self.cursor - 2) as usize, ..self }
        } else {
            self
        }
    }

    /// The state after one step forward through history, a no-op at the
    /// last completed exchange.
    pub open spec fn forward(self) -> Session {
        if self.spec_can_go_forward() {
            Session { cursor: (self.cursor + 2) as usize, ..self }
        } else {
            self
        }
    }

    pub fn can_go_back(&self) -> (b: bool)
        ensures
            b == self.spec_can_go_back(),
    {
        self.cursor > self.sysmsgs_len
    }

    pub fn can_go_forward(&self) -> (b: bool)
        requires
            self.wf(),
        ensures
            b == self.spec_can_go_forward(),
    {
        self.messages_len >= 2 && self.cursor < self.sysmsgs_len + self.messages_len - 2
    }

    /// Moves the cursor one exchange back if possible, else leaves it;
    /// never an error. Returns whether it moved.
    pub fn go_back(&mut self) -> (moved: bool)
        requires
            old(self).wf(),
        ensures
            moved == old(self).spec_can_go_back(),
            *final(self) == old(self).back(),
            final(self).wf(),
    {
        if self.cursor > self.sysmsgs_len {
            self.cursor = self.cursor - 2;
            true
        } else {
            false
        }
    }

    /// Moves the cursor one exchange forward if possible, else leaves it;
    /// never an error. Returns whether it moved.
    pub fn go_forward(&mut self) -> (moved: bool)
        requires
            old(self).wf(),
        ensures
            moved == old(self).spec_can_go_forward(),
            *final(self) == old(self).forward(),
            final(self).wf(),
    {
        if self.messages_len >= 2 && self.cursor < self.sysmsgs_len + self.messages_len - 2 {
            self.cursor = self.cursor + 2;
            true
        } else {
            false
        }
    }

    /// Run before the stream ingester is invoked for a new turn: moves
    /// the cursor past the previously displayed, now-historical exchange
    /// onto the slot the new turn is about to fill; with no exchange yet
    /// the cursor already points at the first slot and stays. Uses
    /// `messages_len` as captured before the turn completes;
    /// `finish_send` increments it only afterwards, which is what keeps
    /// the invariant.
    pub fn advance_for_new_turn(&mut self)
        requires
            old(self).wf(),
            old(self).sysmsgs_len + old(self).messages_len + 2 <= usize::MAX,
        ensures
            old(self).messages_len > 0 ==> *final(self) == (Session {
                cursor: (old(self).cursor + 2) as usize,
                ..*old(self)
            }),
            old(self).messages_len == 0 ==> *final(self) == *old(self),
            final(self).wf_sending(),
    {
        if self.messages_len > 0 {
            self.cursor = self.cursor + 2;
        }
    }

    /// Run after the stream ingester has appended both messages of the
    /// new turn: records the two new exchange messages and clears the
    /// pending-send flag, restoring the cursor invariant.
    pub fn finish_send(&mut self)
        requires
            old(self).wf_sending(),
        ensures
            *final(self) == (Session {
                messages_len: (old(self).messages_len + 2) as usize,
                send: false,
                ..*old(self)
            }),
            final(self).wf(),
    {
        self.messages_len = self.messages_len + 2;
        self.send = false;
    }

    /// The scroll offset after scrolling up, saturating at zero.
    pub open spec fn scrolled_up(self, offset: usize) -> Session {
        Session {
            scroll: if self.scroll > offset {
                (self.scroll - offset) as usize
            } else {
                0usize
            },
            rerender: true,
            ..self
        }
    }

    /// The scroll offset after scrolling down, saturating at the top of
    /// the machine range.
    pub open spec fn scrolled_down(self, offset: usize) -> Session {
        Session {
            scroll: if self.scroll + offset <= usize::MAX {
                (self.scroll + offset) as usize
            } else {
                usize::MAX
            },
            rerender: true,
            ..self
        }
    }

    /// Scrolls the view up by `offset`, saturating at zero, and marks it
    /// dirty.
    pub fn scroll_up(&mut self, offset: usize)
        ensures
            *final(self) == old(self).scrolled_up(offset),
    {
        if self.scroll > offset {
            self.scroll = self.scroll - offset;
        } else {
            self.scroll = 0;
        }
        self.rerender = true;
    }

    /// Scrolls the view down by `offset` and marks it dirty.
    pub fn scroll_down(&mut self, offset: usize)
        ensures
            *final(self) == old(self).scrolled_down(offset),
    {
        self.scroll = self.scroll.saturating_add(offset);
        self.rerender = true;
    }

    /// The state after one key input, given the cancellation flag's value
    /// and whether the composition buffer is empty.
    pub open spec fn key_transition(self, key: KeyInput, receiving: bool, composition_empty: bool) -> Session {
        match key {
            KeyInput::Esc => Session { exit: true, ..self },
            KeyInput::CtrlQ => Session { exit: true, ..self },
            KeyInput::Enter => if !receiving {
                Session { send: true, ..self }
            } else {
                self
            },
            KeyInput::CtrlS => self,
            KeyInput::CtrlU => if composition_empty {
                self.scrolled_up(5)
            } else {
                self
            },
            KeyInput::CtrlD => self.scrolled_down(5),
            KeyInput::Up => self.scrolled_up(1),
            KeyInput::Down => self.scrolled_down(1),
            KeyInput::Left => if self.spec_can_go_back() {
                Session { rerender: true, ..self.back() }
            } else {
                self
            },
            KeyInput::Right => if self.spec_can_go_forward() {
                Session { rerender: true, ..self.forward() }
            } else {
                self
            },
            KeyInput::Other => self,
        }
    }

    /// The effect the surrounding loop must perform for one key input.
    pub open spec fn key_effect(self, key: KeyInput, receiving: bool, composition_empty: bool) -> KeyEffect {
        match key {
            KeyInput::CtrlS => KeyEffect::StopStreaming,
            KeyInput::CtrlU => if composition_empty {
                KeyEffect::Nothing
            } else {
                KeyEffect::ClearComposition
            },
            KeyInput::Other => if !receiving {
                KeyEffect::InsertIntoComposition
            } else {
                KeyEffect::Nothing
            },
            _ => KeyEffect::Nothing,
        }
    }

    /// Handles one decoded key input: quit, submit (gated on the
    /// cancellation flag), stop-streaming, clear-composition-or-scroll,
    /// scrolling, history navigation (marking the view dirty only when
    /// the cursor moved), and default text insertion while not receiving.
    pub fn handle_key_event(&mut self, key: KeyInput, receiving: bool, composition_empty: bool) -> (eff: KeyEffect)
        requires
            old(self).wf(),
        ensures
            *final(self) == old(self).key_transition(key, receiving, composition_empty),
            eff == old(self).key_effect(key, receiving, composition_empty),
            final(self).wf(),
    {
        match key {
            KeyInput::Esc => {
                self.exit = true;
                KeyEffect::Nothing
            },
            KeyInput::Enter => {
                if !receiving {
                    self.send = true;
                }
                KeyEffect::Nothing
            },
            KeyInput::CtrlQ => {
                self.exit = true;
                KeyEffect::Nothing
            },
            KeyInput::CtrlS => KeyEffect::StopStreaming,
            KeyInput::CtrlU => {
                if composition_empty {
                    self.scroll_up(5);
                    KeyEffect::Nothing
                } else {
                    KeyEffect::ClearComposition
                }
            },
            KeyInput::CtrlD => {
                self.scroll_down(5);
                KeyEffect::Nothing
            },
            KeyInput::Up => {
                self.scroll_up(1);
                KeyEffect::Nothing
            },
            KeyInput::Down => {
                self.scroll_down(1);
                KeyEffect::Nothing
            },
            KeyInput::Left => {
                if self.go_back() {
                    self.rerender = true;
                }
                KeyEffect::Nothing
            },
            KeyInput::Right => {
                if self.go_forward() {
                    self.rerender = true;
                }
                KeyEffect::Nothing
            },
            KeyInput::Other => {
                if !receiving {
                    KeyEffect::InsertIntoComposition
                } else {
                    KeyEffect::Nothing
                }
            },
        }
    }

    /// Decides whether this tick re-renders: the displayed reply is
    /// re-rendered exactly when its content differs from the last
    /// rendered content or the view is dirty; with no message to display,
    /// only the composition buffer is rendered. A skipped re-render
    /// leaves the state untouched.
    pub fn plan_render(&mut self, message: Option<&Message>) -> (plan: RenderPlan)
        ensures
            message is None ==> plan == RenderPlan::ComposingOnly && *final(self) == *old(self),
            message is Some && (message->0.content@ != old(self).last_rendered@ || old(self).rerender)
                ==> plan == RenderPlan::Redraw && *final(self) == (Session {
                last_rendered: message->0.content,
                rerender: false,
                ..*old(self)
            }),
            message is Some && message->0.content@ == old(self).last_rendered@ && !old(self).rerender
                ==> plan == RenderPlan::Unchanged && *final(self) == *old(self),
    {
        match message {
            Some(m) => {
                if !(m.content == self.last_rendered) || self.rerender {
                    self.last_rendered = m.content.clone();
                    self.rerender = false;
                    RenderPlan::Redraw
                } else {
                    RenderPlan::Unchanged
                }
            },
            None => RenderPlan::ComposingOnly,
        }
    }
}

/// The height of the conversation pane for a content of height
/// `content_height` in a viewport of height `area_height`: one row above
/// the content, shrunk by three rows when it would crowd out the
/// composition pane; saturating at the bounds of the row type.
pub open spec fn spec_pane_height(content_height: u16, area_height: u16) -> int {
    let h: int = if content_height + 1 <= u16::MAX {
        content_height + 1
    } else {
        u16::MAX as int
    };
    let lim: int = if area_height >= 3 {
        area_height - 3
    } else {
        0
    };
    if h > lim {
        if h >= 3 {
            h - 3
        } else {
            0
        }
    } else {
        h
    }
}

/// The row count the layout gives the conversation pane.
pub fn pane_height(content_height: u16, area_height: u16) -> (k: u16)
    ensures
        k == spec_pane_height(content_height, area_height),
{
    let h = content_height.saturating_add(1);
    let lim = area_height.saturating_sub(3);
    if h > lim {
        h.saturating_sub(3)
    } else {
        h
    }
}

/// Law: in every well-formed state the cursor lies between the leading
/// system messages and the user message of the last completed exchange,
/// and is reachable from `sysmsgs_len` by steps of two.
pub proof fn lemma_cursor_bounds(s: Session)
    requires
        s.wf(),
    ensures
        s.sysmsgs_len <= s.cursor,
        s.cursor <= s.sysmsgs_len + (if s.messages_len >= 2 {
            (s.messages_len - 2) as int
        } else {
            0int
        }),
        exists|k: int| 0 <= k && s.cursor == s.sysmsgs_len + #[trigger] (2 * k),
{
    let d = s.cursor - s.sysmsgs_len;
    lemma_fundamental_div_mod(d, 2);
    assert(0 <= d / 2 && s.cursor == s.sysmsgs_len + 2 * (d / 2));
}

/// Law: going back one exchange and then forward again, when both moves
/// are legal, returns the session to exactly the state it started in.
pub proof fn lemma_back_then_forward(s: Session)
    requires
        s.wf(),
        s.spec_can_go_back(),
    ensures
        s.back().spec_can_go_forward(),
        s.back().forward() == s,
{
}

} // verus!
