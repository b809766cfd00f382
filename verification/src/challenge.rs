//! The subscription handshake: the platform sends a challenge token and
//! expects it back verbatim.

use vstd::prelude::*;
use crate::event::{field_or, text_or, EventModel, InboundEvent};
use crate::text::same_text;

verus! {

/// What is echoed when an event carries no challenge.
pub open spec fn no_challenge() -> Seq<char> {
    "invalid_challenge"@
}

/// The challenge value to echo for an event: its challenge token, unchanged,
/// or the stand-in where it has none.
pub open spec fn challenge_reply(e: EventModel) -> Seq<char> {
    text_or(e.challenge, no_challenge())
}

/// Whether the event is a handshake request, that is, carries a challenge
/// token other than the stand-in.
pub open spec fn is_challenge(e: EventModel) -> bool {
    challenge_reply(e) != no_challenge()
}

/// Tells a handshake request from any other event.
pub fn is_challenge_request(event: &InboundEvent) -> (r: bool)
    ensures
        r == is_challenge(event@),
{
    !same_text(field_or(&event.challenge, "invalid_challenge"), "invalid_challenge")
}

/// The value to put into the response's `challenge` member.
pub fn respond_to_challenge(event: &InboundEvent) -> (reply: String)
    ensures
        reply@ == challenge_reply(event@),
{
    field_or(&event.challenge, "invalid_challenge").to_owned()
}

} // verus!
