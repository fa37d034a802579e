//! From an inbound event to the command it asks for, if any.

use crate::command::{lemma_payload_names_command, CommandName};
use crate::identity::spec_command_topic;
use crate::text::{bytes_end_with, lemma_ascii_suffix};
use vstd::prelude::*;
use vstd::string::*;
use vstd::utf8::*;

verus! {

/// What the session hands to the dispatcher, one at a time and in the order
/// the broker delivered it.
#[derive(Debug)]
pub enum InboundEvent {
    /// A message, as the broker delivered it.
    Message { topic: String, payload: Vec<u8> },
    /// The transport reported that the connection is lost.
    Disconnected,
}

/// Whether `topic` is a command topic: it ends with the literal `/commands`.
pub open spec fn spec_is_command_topic(topic: Seq<char>) -> bool {
    "/commands"@.is_suffix_of(topic)
}

/// The command that a message on `topic` with `payload` asks for: on a
/// command topic what the payload names, elsewhere none.
pub open spec fn spec_dispatch(topic: Seq<char>, payload: Seq<u8>) -> Option<CommandName> {
    if spec_is_command_topic(topic) {
        CommandName::spec_from_payload(payload)
    } else {
        None
    }
}

/// Whether `topic` is a command topic.
pub fn is_command_topic(topic: &str) -> (r: bool)
    ensures
        r == spec_is_command_topic(topic@),
{
    proof {
        reveal_strlit("/commands");
        lemma_ascii_suffix(topic@, "/commands"@);
    }
    bytes_end_with(topic.as_bytes(), "/commands".as_bytes())
}

/// The command that a message asks for, if any.
pub fn dispatch(topic: &str, payload: &[u8]) -> (r: Option<CommandName>)
    ensures
        r == spec_dispatch(topic@, payload@),
{
    if is_command_topic(topic) {
        CommandName::from_payload(payload)
    } else {
        None
    }
}

impl InboundEvent {
    /// The command this event asks for: what `spec_dispatch` gives for a
    /// message, and none for a lost connection.
    pub open spec fn spec_command(self) -> Option<CommandName> {
        match self {
            InboundEvent::Message { topic, payload } => spec_dispatch(topic@, payload@),
            InboundEvent::Disconnected => None,
        }
    }

    /// The command this event asks for, if any.
    pub fn command(&self) -> (r: Option<CommandName>)
        ensures
            r == self.spec_command(),
    {
        match self {
            InboundEvent::Message { topic, payload } => dispatch(
                topic.as_str(),
                payload.as_slice(),
            ),
            InboundEvent::Disconnected => None,
        }
    }
}

/// A payload that is neither command word, byte for byte, asks for nothing,
/// whatever the topic.
pub proof fn lemma_unknown_payload_ignored(topic: Seq<char>, payload: Seq<u8>)
    requires
        payload != encode_utf8("shutdown"@),
        payload != encode_utf8("reboot"@),
    ensures
        spec_dispatch(topic, payload) is None,
{
    lemma_payload_names_command(payload, CommandName::Shutdown);
    lemma_payload_names_command(payload, CommandName::Reboot);
}

/// A message on a topic that does not end in `/commands` asks for nothing,
/// whatever its payload.
pub proof fn lemma_other_topic_ignored(topic: Seq<char>, payload: Seq<u8>)
    requires
        !"/commands"@.is_suffix_of(topic),
    ensures
        spec_dispatch(topic, payload) is None,
{
}

/// A message asks for a command exactly when its topic ends in `/commands`
/// and its payload is that command's word, byte for byte.
pub proof fn lemma_dispatch_exact(topic: Seq<char>, payload: Seq<u8>, command: CommandName)
    ensures
        spec_dispatch(topic, payload) == Some(command) <==> "/commands"@.is_suffix_of(topic)
            && payload == encode_utf8(command.spec_word()),
{
    lemma_payload_names_command(payload, command);
}

/// The topic a device subscribes to is a command topic.
pub proof fn lemma_own_topic_is_command_topic(name: Seq<char>)
    ensures
        spec_is_command_topic(spec_command_topic(name)),
{
    let topic = spec_command_topic(name);
    assert("/commands"@ =~= topic.subrange(topic.len() - "/commands"@.len(), topic.len() as int));
}

} // verus!
