//! What is worth noting about an event besides the actions it asks for:
//! the observations a caller may want to put into its log.

use vstd::prelude::*;
use crate::action::{
    allowed_channel, channel_of, command_text, command_text_of, is_bot, ping_command,
    sent_by_bot, team_join,
};
use crate::challenge::{challenge_reply, is_challenge, is_challenge_request};
use crate::event::{field_or, text_or, EventModel, InboundEvent};
use crate::text::same_text;

verus! {

/// One observation about an event.
#[derive(Clone, Debug, PartialEq, Eq)]
pub enum Notice {
    /// The event is no handshake request.
    NotAChallenge,
    /// The event is a handshake request with these particulars.
    Challenge { token: String, challenge: String, message_type: String },
    /// The event is of a type that asks for no onboarding.
    InvalidEventType { event_type: String },
    /// The message is outside the allowed channel.
    ChannelNotAllowed,
    /// A bot sent the message.
    FromBot,
    /// The lower-cased text is not a command that is answered.
    InvalidCommand { text: String },
}

/// Mathematical model of a [`Notice`].
pub ghost enum NoticeModel {
    NotAChallenge,
    Challenge { token: Seq<char>, challenge: Seq<char>, message_type: Seq<char> },
    InvalidEventType { event_type: Seq<char> },
    ChannelNotAllowed,
    FromBot,
    InvalidCommand { text: Seq<char> },
}

impl View for Notice {
    type V = NoticeModel;

    open spec fn view(&self) -> NoticeModel {
        match *self {
            Notice::NotAChallenge => NoticeModel::NotAChallenge,
            Notice::Challenge { token, challenge, message_type } => NoticeModel::Challenge {
                token: token@,
                challenge: challenge@,
                message_type: message_type@,
            },
            Notice::InvalidEventType { event_type } => NoticeModel::InvalidEventType {
                event_type: event_type@,
            },
            Notice::ChannelNotAllowed => NoticeModel::ChannelNotAllowed,
            Notice::FromBot => NoticeModel::FromBot,
            Notice::InvalidCommand { text } => NoticeModel::InvalidCommand { text: text@ },
        }
    }
}

/// The models of a sequence of notices, in order.
pub open spec fn notice_models(notices: Seq<Notice>) -> Seq<NoticeModel> {
    notices.map_values(|n: Notice| n@)
}

/// What is noted about the handshake: the particulars of a challenge,
/// each with its stand-in where it is missing, or that there is none.
pub open spec fn challenge_notice(e: EventModel) -> NoticeModel {
    if is_challenge(e) {
        NoticeModel::Challenge {
            token: text_or(e.token, "invalid_token"@),
            challenge: challenge_reply(e),
            message_type: text_or(e.message_type, "invalid_type"@),
        }
    } else {
        NoticeModel::NotAChallenge
    }
}

/// What is noted about the event type: nothing for `team_join`, otherwise
/// the type that was found, or its stand-in.
pub open spec fn event_type_notice(e: EventModel) -> Seq<NoticeModel> {
    if e.event_type == Some(team_join()) {
        seq![]
    } else {
        seq![
            NoticeModel::InvalidEventType {
                event_type: text_or(e.event_type, "invalid event type"@),
            },
        ]
    }
}

/// What is noted about a message with the lower-cased text `text`: the
/// first reason for which no reply is sent, if there is one.
pub open spec fn command_notice(channel: Seq<char>, from_bot: bool, text: Seq<char>) -> Seq<
    NoticeModel,
> {
    if channel != allowed_channel() {
        seq![NoticeModel::ChannelNotAllowed]
    } else if from_bot {
        seq![NoticeModel::FromBot]
    } else if text != ping_command() {
        seq![NoticeModel::InvalidCommand { text }]
    } else {
        seq![]
    }
}

/// Everything that is noted about an event, in order: the handshake, the
/// event type, the command.
pub open spec fn notices_of(e: EventModel) -> Seq<NoticeModel> {
    seq![challenge_notice(e)] + event_type_notice(e) + command_notice(
        channel_of(e),
        is_bot(e),
        command_text_of(e),
    )
}

/// Lists what is worth noting about an event.
pub fn notices(event: &InboundEvent) -> (found: Vec<Notice>)
    ensures
        notice_models(found@) == notices_of(event@),
{
    let mut found: Vec<Notice> = Vec::new();
    if is_challenge_request(event) {
        found.push(
            Notice::Challenge {
                token: field_or(&event.token, "invalid_token").to_owned(),
                challenge: field_or(&event.challenge, "invalid_challenge").to_owned(),
                message_type: field_or(&event.message_type, "invalid_type").to_owned(),
            },
        );
    } else {
        found.push(Notice::NotAChallenge);
    }
    assert(notice_models(found@) =~= seq![challenge_notice(event@)]);
    let joined = match &event.event_type {
        Some(t) => same_text(t.as_str(), "team_join"),
        None => false,
    };
    if !joined {
        found.push(
            Notice::InvalidEventType {
                event_type: field_or(&event.event_type, "invalid event type").to_owned(),
            },
        );
    }
    assert(notice_models(found@) =~= seq![challenge_notice(event@)] + event_type_notice(event@));
    let text = command_text(event);
    if !same_text(field_or(&event.channel, "invalid_channel"), "C0351GJ62Q0") {
        found.push(Notice::ChannelNotAllowed);
    } else if sent_by_bot(event) {
        found.push(Notice::FromBot);
    } else if !same_text(text.as_str(), "ping") {
        found.push(Notice::InvalidCommand { text });
    }
    assert(notice_models(found@) =~= notices_of(event@));
    found
}

} // verus!
