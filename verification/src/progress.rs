//! The progress lines the agent writes, its only channel to an observer.

use crate::text::{spec_text_of, text_of};
use vstd::prelude::*;
use vstd::string::*;

verus! {

/// The line written before the first connect.
pub open spec fn spec_connecting_line() -> Seq<char> {
    "Connecting to the MQTT server..."@
}

/// The line written before subscribing to `topic`.
pub open spec fn spec_subscribing_line(topic: Seq<char>) -> Seq<char> {
    "Subscribing to topic: "@ + topic
}

/// The line written once the subscription stands.
pub open spec fn spec_waiting_line() -> Seq<char> {
    "Waiting for messages..."@
}

/// The line written for a message whose payload reads as `text`.
pub open spec fn spec_received_line(text: Seq<char>) -> Seq<char> {
    "received: "@ + text
}

/// The line written when the connection is lost.
pub open spec fn spec_lost_connection_line() -> Seq<char> {
    "Lost connection. Attempting reconnect."@
}

/// The line written when a reconnect failed for `reason`.
pub open spec fn spec_reconnect_error_line(reason: Seq<char>) -> Seq<char> {
    "Error reconnecting: "@ + reason
}

/// The line written before the first connect.
pub fn connecting_line() -> (r: String)
    ensures
        r@ == spec_connecting_line(),
{
    String::from_str("Connecting to the MQTT server...")
}

/// The line written before subscribing to `topic`.
pub fn subscribing_line(topic: &str) -> (r: String)
    ensures
        r@ == spec_subscribing_line(topic@),
{
    let mut line = String::from_str("Subscribing to topic: ");
    line.append(topic);
    line
}

/// The line written once the subscription stands.
pub fn waiting_line() -> (r: String)
    ensures
        r@ == spec_waiting_line(),
{
    String::from_str("Waiting for messages...")
}

/// The line written for a message whose payload reads as `text`.
pub fn received_line(text: &str) -> (r: String)
    ensures
        r@ == spec_received_line(text@),
{
    let mut line = String::from_str("received: ");
    line.append(text);
    line
}

/// The line written for a message with `payload`, the payload read as text.
pub fn received_payload_line(payload: &[u8]) -> (r: String)
    ensures
        r@ == spec_received_line(spec_text_of(payload@)),
{
    let text = text_of(payload);
    received_line(text.as_str())
}

/// The line written when the connection is lost.
pub fn lost_connection_line() -> (r: String)
    ensures
        r@ == spec_lost_connection_line(),
{
    String::from_str("Lost connection. Attempting reconnect.")
}

/// The line written when a reconnect failed for `reason`.
pub fn reconnect_error_line(reason: &str) -> (r: String)
    ensures
        r@ == spec_reconnect_error_line(reason@),
{
    let mut line = String::from_str("Error reconnecting: ");
    line.append(reason);
    line
}

} // verus!
