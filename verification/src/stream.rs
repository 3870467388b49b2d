//! Ingestion of a streamed reply: each response chunk decodes to one
//! fragment of assistant text, appended to the trailing placeholder in
//! arrival order unless the shared cancellation flag was cleared; a chunk
//! that fails to decode ends the drain and leaves a visible marker that
//! the reply is incomplete.

use crate::conversation::{extended, Converation};
use vstd::prelude::*;

verus! {

/// What the chat endpoint's chunk encoding yields for one chunk: the
/// assistant-text fragment of a well-formed chunk, or `None` for a
/// malformed one. A function of the bytes alone.
pub uninterp spec fn fragment_of(chunk: Seq<u8>) -> Option<Seq<char>>;

/// Relies on serde_json::from_slice and the accessors of
/// serde_json::Value: a well-formed chunk is one JSON object whose
/// "message" member is an object with a string "role" and a string
/// "content"; the fragment is that "content". The result depends on the
/// chunk's bytes alone.
#[verifier::external_body]
fn decode_fragment(chunk: &[u8]) -> (r: Option<String>)
    ensures
        r is Some <==> fragment_of(chunk@) is Some,
        r is Some ==> r->0@ == fragment_of(chunk@)->0,
{
    let v: serde_json::Value = match serde_json::from_slice(chunk) {
        Ok(v) => v,
        Err(_) => return None,
    };
    let m = v.get("message")?;
    if !m.get("role").map_or(false, |r| r.is_string()) {
        return None;
    }
    Some(m.get("content")?.as_str()?.to_owned())
}

/// How one drain step left the conversation.
#[derive(Clone, Copy, PartialEq, Eq, Structural, Debug)]
pub enum DrainOutcome {
    /// The fragment was appended to the trailing reply.
    Appended,
    /// The cancellation flag was already clear: nothing was appended and
    /// the drain stops here.
    Stopped,
    /// The chunk failed to decode: the partial reply is retained, an
    /// incomplete-reply marker is appended, and the drain ends.
    Malformed,
}

/// The marker appended to a reply whose stream ended on a chunk that
/// failed to decode.
pub open spec fn incomplete_marker_text() -> Seq<char> {
    "\n[reply incomplete: malformed chunk]"@
}

/// The incomplete-reply marker as a string slice.
pub fn incomplete_marker() -> (r: &'static str)
    ensures
        r@ == incomplete_marker_text(),
{
    "\n[reply incomplete: malformed chunk]"
}

/// Applies one decoded chunk to the conversation: with the cancellation
/// flag clear nothing changes; with it set, a decoded fragment extends the
/// trailing reply, and a failed decode appends the incomplete-reply
/// marker instead. The flag clear suppressing all growth is what makes
/// cooperative cancellation stop the reply within one chunk boundary.
pub fn apply_fragment(conv: &mut Converation, receiving: bool, fragment: Option<String>) -> (r: DrainOutcome)
    requires
        receiving ==> old(conv).messages@.len() > 0,
    ensures
        !receiving ==> r == DrainOutcome::Stopped && *final(conv) == *old(conv),
        receiving && fragment is Some ==> r == DrainOutcome::Appended && extended(
            old(conv).messages@,
            final(conv).messages@,
            fragment->0@,
        ),
        receiving && fragment is None ==> r == DrainOutcome::Malformed && extended(
            old(conv).messages@,
            final(conv).messages@,
            incomplete_marker_text(),
        ),
        final(conv).model == old(conv).model,
{
    if !receiving {
        return DrainOutcome::Stopped;
    }
    match fragment {
        Some(f) => {
            conv.append_fragment(f.as_str());
            DrainOutcome::Appended
        },
        None => {
            conv.append_fragment(incomplete_marker());
            DrainOutcome::Malformed
        },
    }
}

/// One step of the drain: decode the chunk and apply it, observing the
/// cancellation flag first, so a cleared flag suppresses the fragment
/// entirely.
pub fn drain_step(conv: &mut Converation, receiving: bool, chunk: &[u8]) -> (r: DrainOutcome)
    requires
        receiving ==> old(conv).messages@.len() > 0,
    ensures
        !receiving ==> r == DrainOutcome::Stopped && *final(conv) == *old(conv),
        receiving && fragment_of(chunk@) is Some ==> r == DrainOutcome::Appended && extended(
            old(conv).messages@,
            final(conv).messages@,
            fragment_of(chunk@)->0,
        ),
        receiving && fragment_of(chunk@) is None ==> r == DrainOutcome::Malformed && extended(
            old(conv).messages@,
            final(conv).messages@,
            incomplete_marker_text(),
        ),
        final(conv).model == old(conv).model,
{
    if !receiving {
        return DrainOutcome::Stopped;
    }
    let fragment = decode_fragment(chunk);
    apply_fragment(conv, true, fragment)
}

/// The concatenation of a sequence of fragments, in delivery order.
pub open spec fn concat_fragments(frags: Seq<Seq<char>>) -> Seq<char>
    decreases frags.len(),
{
    if frags.len() == 0 {
        Seq::empty()
    } else {
        frags.first() + concat_fragments(frags.drop_first())
    }
}

/// The content a reply holds after each fragment of `frags` has been
/// appended to `content`, one by one, in delivery order.
pub open spec fn after_appends(content: Seq<char>, frags: Seq<Seq<char>>) -> Seq<char>
    decreases frags.len(),
{
    if frags.len() == 0 {
        content
    } else {
        after_appends(content + frags.first(), frags.drop_first())
    }
}

/// Law: fragment appends are order-preserving and lossless. Appending the
/// fragments delivered for one turn to the reply one by one yields
/// exactly the starting content followed by their concatenation; from the
/// empty placeholder, exactly the concatenation of the fragments.
pub proof fn lemma_fragments_lossless(content: Seq<char>, frags: Seq<Seq<char>>)
    ensures
        after_appends(content, frags) == content + concat_fragments(frags),
    decreases frags.len(),
{
    if frags.len() == 0 {
        assert(content + concat_fragments(frags) =~= content);
    } else {
        lemma_fragments_lossless(content + frags.first(), frags.drop_first());
        assert(content + frags.first() + concat_fragments(frags.drop_first()) =~= content
            + concat_fragments(frags));
    }
}

} // verus!
