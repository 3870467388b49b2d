//! The conversation store: the ordered message list and the model
//! identifier, with the append operations the event loop and the stream
//! ingester share, and the shape invariant that messages strictly
//! alternate `user`, `assistant` after an optional leading `system`
//! message.

use crate::config::Profile;
use vstd::prelude::*;
use vstd::string::StringExecFns;

verus! {

/// Who authored a message.
#[derive(Clone, Copy, PartialEq, Eq, Structural, Debug)]
pub enum Role {
    System,
    User,
    Assistant,
}

/// One message of the conversation. Immutable once created, except the
/// trailing assistant message's content, which is append-only while a
/// reply streams in.
#[derive(Debug)]
pub struct Message {
    pub role: Role,
    pub content: String,
}

impl Clone for Message {
    fn clone(&self) -> (res: Self)
        ensures
            res == *self,
    {
        Message { role: self.role, content: self.content.clone() }
    }
}

impl Message {
    /// A user turn holding the composed text.
    pub fn user(s: String) -> (m: Message)
        ensures
            m.role == Role::User,
            m.content == s,
    {
        Message { role: Role::User, content: s }
    }

    /// An assistant reply; created empty as the placeholder a stream
    /// drains into.
    pub fn assistant(s: String) -> (m: Message)
        ensures
            m.role == Role::Assistant,
            m.content == s,
    {
        Message { role: Role::Assistant, content: s }
    }

    /// The system prompt a profile may open the conversation with.
    pub fn system(s: String) -> (m: Message)
        ensures
            m.role == Role::System,
            m.content == s,
    {
        Message { role: Role::System, content: s }
    }
}

/// The role the shape invariant demands at position `i` of a message list
/// whose first `sys` messages are system messages.
pub open spec fn role_at(sys: int, i: int) -> Role {
    if i < sys {
        Role::System
    } else if (i - sys) % 2 == 0 {
        Role::User
    } else {
        Role::Assistant
    }
}

/// The conversation shape: `sys` leading system messages (0 or 1) followed
/// by `ml` exchange messages that strictly alternate `user`, `assistant`.
pub open spec fn well_shaped(msgs: Seq<Message>, sys: int, ml: int) -> bool {
    &&& 0 <= sys <= 1
    &&& 0 <= ml
    &&& ml % 2 == 0
    &&& msgs.len() == sys + ml
    &&& forall|i: int| 0 <= i < msgs.len() ==> msgs[i].role == role_at(sys, i)
}

/// Relates a message list to the same list with one fragment appended to
/// the content of its last message: everything else is unchanged.
pub open spec fn extended(before: Seq<Message>, after: Seq<Message>, frag: Seq<char>) -> bool {
    &&& before.len() > 0
    &&& after.len() == before.len()
    &&& forall|i: int| 0 <= i < before.len() - 1 ==> after[i] == before[i]
    &&& after.last().role == before.last().role
    &&& after.last().content@ == before.last().content@ + frag
}

/// The conversation: a model identifier and the ordered message list.
#[derive(Debug)]
pub struct Converation {
    pub model: String,
    pub messages: Vec<Message>,
}

impl Converation {
    /// A fresh conversation: the profile's model, and one system message
    /// if the profile carries a system prompt, else no messages at all.
    pub fn from_profile(p: Profile) -> (c: Converation)
        ensures
            c.model == p.model,
            p.system matches Some(sys) ==> c.messages@ =~= seq![Message { role: Role::System, content: sys }],
            p.system is None ==> c.messages@ =~= Seq::<Message>::empty(),
            well_shaped(c.messages@, c.messages@.len() as int, 0),
    {
        let mut messages: Vec<Message> = Vec::new();
        if let Some(sys) = p.system {
            messages.push(Message::system(sys));
        }
        Converation { model: p.model, messages }
    }

    /// Appends a message at the end; one exclusive-access critical
    /// section when the store is shared.
    pub fn append(&mut self, m: Message)
        ensures
            final(self).messages@ == old(self).messages@.push(m),
            final(self).model == old(self).model,
    {
        self.messages.push(m);
    }

    /// Extends the content of the last message by one fragment; one
    /// exclusive-access critical section, so no reader observes a
    /// partially appended fragment.
    pub fn append_fragment(&mut self, text: &str)
        requires
            old(self).messages@.len() > 0,
        ensures
            extended(old(self).messages@, final(self).messages@, text@),
            final(self).model == old(self).model,
    {
        let mut m = self.messages.pop().unwrap();
        m.content.append(text);
        let ghost before = old(self).messages@;
        self.messages.push(m);
        proof {
            assert(final(self).messages@ =~= before.update(before.len() - 1, final(self).messages@.last()));
        }
    }

    /// A copy of the message at `index` under shared access, or `None`
    /// past the end.
    pub fn snapshot_at(&self, index: usize) -> (r: Option<Message>)
        ensures
            index < self.messages@.len() ==> r == Some(self.messages@[index as int]),
            index >= self.messages@.len() ==> r is None,
    {
        if index < self.messages.len() {
            Some(self.messages[index].clone())
        } else {
            None
        }
    }
}

/// Law: one completed send preserves the conversation shape. Appending a
/// user turn and then an assistant reply to a well-shaped list of `ml`
/// exchange messages yields a well-shaped list of `ml + 2`, so after any
/// sequence of sends the list holds `sys + ml` messages that strictly
/// alternate `user`, `assistant` after the optional system message.
pub proof fn lemma_send_preserves_shape(msgs: Seq<Message>, sys: int, ml: int, u: Message, a: Message)
    requires
        well_shaped(msgs, sys, ml),
        u.role == Role::User,
        a.role == Role::Assistant,
    ensures
        well_shaped(msgs.push(u).push(a), sys, ml + 2),
{
    let pushed = msgs.push(u).push(a);
    assert forall|i: int| 0 <= i < pushed.len() implies pushed[i].role == role_at(sys, i) by {
        if i < msgs.len() {
            assert(pushed[i] == msgs[i]);
        } else if i == msgs.len() {
            assert(pushed[i] == u);
        } else {
            assert(pushed[i] == a);
        }
    }
}

/// Law: appending a fragment to the trailing assistant reply preserves
/// the conversation shape; only that reply's content grows.
pub proof fn lemma_fragment_preserves_shape(
    before: Seq<Message>,
    after: Seq<Message>,
    sys: int,
    ml: int,
    frag: Seq<char>,
)
    requires
        well_shaped(before, sys, ml),
        extended(before, after, frag),
    ensures
        well_shaped(after, sys, ml),
{
    assert forall|i: int| 0 <= i < after.len() implies after[i].role == role_at(sys, i) by {
        if i < before.len() - 1 {
            assert(after[i] == before[i]);
        } else {
            assert(after[i].role == before.last().role);
        }
    }
}

} // verus!
