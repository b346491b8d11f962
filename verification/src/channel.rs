//! The chat channel's data as the adaptor sees it: inbound updates with their
//! monotonically increasing identifiers, and the success/failure envelopes of
//! the two channel calls (fetch-new-messages and send-message).

use vstd::prelude::*;

verus! {

/// The sender of a chat message.
pub struct ChatUser {
    pub id: i64,
    pub first_name: String,
    pub last_name: String,
    pub username: String,
}

/// A chat message: where it came from and what it says.
pub struct ChatMessage {
    pub message_id: i64,
    pub from: Option<ChatUser>,
    pub chat_id: i64,
    pub chat_type: String,
    pub text: String,
}

/// One inbound update from the channel; the message payload is optional.
pub struct Update {
    pub update_id: i64,
    pub message: Option<ChatMessage>,
}

/// A poll fails when the channel's envelope reports non-success.
#[derive(Debug)]
pub enum PollError {
    ChannelRejected,
}

/// A send fails when the channel's envelope reports non-success; the
/// rejection carries the envelope's diagnostic description. Transport
/// failures never reach the library: the caller that made the call keeps
/// them, and retries on a later cycle either way.
#[derive(Debug)]
pub enum ChannelError {
    Rejected(Option<String>),
}

/// An update carries a message worth turning into a task: a payload with
/// non-empty text.
pub open spec fn creatable(u: Update) -> bool {
    u.message is Some && u.message->0.text@.len() > 0
}

/// The messages of a batch that a task must be created for, in batch order.
pub open spec fn creatable_msgs(s: Seq<Update>) -> Seq<ChatMessage>
    decreases s.len(),
{
    if s.len() == 0 {
        Seq::empty()
    } else {
        let rest = creatable_msgs(s.drop_last());
        if creatable(s.last()) {
            rest.push(s.last().message->0)
        } else {
            rest
        }
    }
}

/// The channel hands updates out in ascending identifier order.
pub open spec fn ids_ascending(s: Seq<Update>) -> bool {
    forall|i: int, j: int| 0 <= i < j < s.len() ==> s[i].update_id < s[j].update_id
}

/// The largest update identifier of a batch (0 for an empty batch).
pub open spec fn spec_max_id(s: Seq<Update>) -> int
    decreases s.len(),
{
    if s.len() == 0 {
        0
    } else {
        let m = spec_max_id(s.drop_last());
        if s.len() == 1 || s.last().update_id as int > m {
            s.last().update_id as int
        } else {
            m
        }
    }
}

/// In an ascending batch the last identifier is the largest.
pub proof fn lemma_max_is_last(s: Seq<Update>)
    requires
        ids_ascending(s),
        s.len() > 0,
    ensures
        spec_max_id(s) == s.last().update_id as int,
    decreases s.len(),
{
    if s.len() > 1 {
        assert(ids_ascending(s.drop_last()));
        lemma_max_is_last(s.drop_last());
        assert(s.drop_last().last() == s[s.len() - 2]);
        assert(s[s.len() - 2].update_id < s[s.len() - 1].update_id);
        assert(s.last() == s[s.len() - 1]);
    }
}

/// Decision on a send-message envelope: success exactly when the channel
/// reported `ok`; otherwise the rejection carries the channel's description.
pub fn send_outcome(ok: bool, description: Option<String>) -> (r: Result<(), ChannelError>)
    ensures
        r is Ok <==> ok,
        !ok ==> r == Result::<(), ChannelError>::Err(ChannelError::Rejected(description)),
{
    if ok {
        Ok(())
    } else {
        Err(ChannelError::Rejected(description))
    }
}

} // verus!
