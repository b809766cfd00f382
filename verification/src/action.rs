//! Action requests and the classifier that decides which of them an event
//! calls for.

use vstd::prelude::*;
use crate::event::{field_or, text_or, EventModel, InboundEvent};
use crate::text::{contains_text, has_substring, lowercase, same_text, to_lower};

verus! {

/// A request to the caller to perform one side effect.
#[derive(Clone, Debug, PartialEq, Eq)]
pub enum ActionRequest {
    /// Welcome a user who has just joined.
    Onboard { user_id: String, first_name: String },
    /// Send the fixed reply to a channel.
    Reply { channel: String },
    /// Add one to a user's counter.
    IncrementCounter { user_id: String },
}

/// Mathematical model of an [`ActionRequest`].
pub ghost enum ActionModel {
    Onboard { user_id: Seq<char>, first_name: Seq<char> },
    Reply { channel: Seq<char> },
    IncrementCounter { user_id: Seq<char> },
}

impl View for ActionRequest {
    type V = ActionModel;

    open spec fn view(&self) -> ActionModel {
        match *self {
            ActionRequest::Onboard { user_id, first_name } => ActionModel::Onboard {
                user_id: user_id@,
                first_name: first_name@,
            },
            ActionRequest::Reply { channel } => ActionModel::Reply { channel: channel@ },
            ActionRequest::IncrementCounter { user_id } => ActionModel::IncrementCounter {
                user_id: user_id@,
            },
        }
    }
}

/// The models of a sequence of action requests, in order.
pub open spec fn action_models(actions: Seq<ActionRequest>) -> Seq<ActionModel> {
    actions.map_values(|a: ActionRequest| a@)
}

/// The event type that marks a user joining.
pub open spec fn team_join() -> Seq<char> {
    "team_join"@
}

/// The one channel in which commands are obeyed.
pub open spec fn allowed_channel() -> Seq<char> {
    "C0351GJ62Q0"@
}

/// The subtype that marks a message sent by a bot.
pub open spec fn bot_message() -> Seq<char> {
    "bot_message"@
}

/// The command that asks for a reply.
pub open spec fn ping_command() -> Seq<char> {
    "ping"@
}

/// The word that triggers the counter.
pub open spec fn buns_trigger() -> Seq<char> {
    "buns"@
}

/// The user the event is about, with the stand-in for a missing id.
pub open spec fn user_of(e: EventModel) -> Seq<char> {
    text_or(e.user_id, "invalid_user_name"@)
}

/// The user's first name, empty where none is given.
pub open spec fn first_name_of(e: EventModel) -> Seq<char> {
    text_or(e.first_name, ""@)
}

/// The channel of the event, with the stand-in for a missing one.
pub open spec fn channel_of(e: EventModel) -> Seq<char> {
    text_or(e.channel, "invalid_channel"@)
}

/// The message text in lower case, with the stand-in for a missing text.
pub open spec fn command_text_of(e: EventModel) -> Seq<char> {
    lowercase(text_or(e.text, "invalid_text"@))
}

/// The identity the counter is kept under, with the stand-in for a missing one.
pub open spec fn counter_user_of(e: EventModel) -> Seq<char> {
    text_or(e.enterprise_id, "invalid_channel"@)
}

/// The message was sent by a bot.
pub open spec fn is_bot(e: EventModel) -> bool {
    e.subtype == Some(bot_message())
}

/// Onboarding rule: a `team_join` event asks for the user to be onboarded,
/// whatever its channel, sender or text.
pub open spec fn onboard_rule(e: EventModel) -> Seq<ActionModel> {
    if e.event_type == Some(team_join()) {
        seq![ActionModel::Onboard { user_id: user_of(e), first_name: first_name_of(e) }]
    } else {
        seq![]
    }
}

/// Reply rule: the text is exactly the ping command.
pub open spec fn reply_rule(channel: Seq<char>, text: Seq<char>) -> Seq<ActionModel> {
    if text == ping_command() {
        seq![ActionModel::Reply { channel }]
    } else {
        seq![]
    }
}

/// Counter rule: the text contains the trigger word.
pub open spec fn counter_rule(text: Seq<char>, user: Seq<char>) -> Seq<ActionModel> {
    if has_substring(text, buns_trigger()) {
        seq![ActionModel::IncrementCounter { user_id: user }]
    } else {
        seq![]
    }
}

/// The command rules for a message with the lower-cased text `text`:
/// nothing outside the allowed channel, nothing for a bot; otherwise the
/// reply rule and the counter rule, each evaluated on its own.
pub open spec fn command_rules(
    channel: Seq<char>,
    from_bot: bool,
    text: Seq<char>,
    user: Seq<char>,
) -> Seq<ActionModel> {
    if channel != allowed_channel() || from_bot {
        seq![]
    } else {
        reply_rule(channel, text) + counter_rule(text, user)
    }
}

/// The commands that an event asks for.
pub open spec fn event_commands(e: EventModel) -> Seq<ActionModel> {
    command_rules(channel_of(e), is_bot(e), command_text_of(e), counter_user_of(e))
}

/// The actions an event calls for: onboarding first, then the commands.
pub open spec fn classification(e: EventModel) -> Seq<ActionModel> {
    onboard_rule(e) + event_commands(e)
}

/// Taking the models of a sequence of requests goes through concatenation.
pub proof fn lemma_action_models_concat(a: Seq<ActionRequest>, b: Seq<ActionRequest>)
    ensures
        action_models(a + b) == action_models(a) + action_models(b),
{
    assert(action_models(a + b) =~= action_models(a) + action_models(b));
}

/// The onboarding request of a `team_join` event; nothing for any other.
pub fn onboarding(event: &InboundEvent) -> (actions: Vec<ActionRequest>)
    ensures
        action_models(actions@) == onboard_rule(event@),
{
    let mut actions: Vec<ActionRequest> = Vec::new();
    let joined = match &event.event_type {
        Some(t) => same_text(t.as_str(), "team_join"),
        None => false,
    };
    if joined {
        actions.push(
            ActionRequest::Onboard {
                user_id: field_or(&event.user_id, "invalid_user_name").to_owned(),
                first_name: field_or(&event.first_name, "").to_owned(),
            },
        );
    }
    assert(action_models(actions@) =~= onboard_rule(event@));
    actions
}

/// Applies the command rules to a message. `text` is the message text
/// already in lower case, `counter_user` the identity to count under.
///
/// Outside the allowed channel, and for a bot, nothing is asked for.
/// Otherwise a text that is exactly `ping` asks for a reply to the channel,
/// and a text that contains `buns` for a counter increment.
pub fn command_actions(channel: &str, from_bot: bool, text: &str, counter_user: &str) -> (actions:
    Vec<ActionRequest>)
    ensures
        action_models(actions@) == command_rules(channel@, from_bot, text@, counter_user@),
{
    let mut actions: Vec<ActionRequest> = Vec::new();
    if !same_text(channel, "C0351GJ62Q0") || from_bot {
        assert(action_models(actions@) =~= seq![]);
        return actions;
    }
    if same_text(text, "ping") {
        actions.push(ActionRequest::Reply { channel: channel.to_owned() });
    }
    assert(action_models(actions@) =~= reply_rule(channel@, text@));
    if contains_text(text, "buns") {
        actions.push(ActionRequest::IncrementCounter { user_id: counter_user.to_owned() });
    }
    assert(action_models(actions@) =~= reply_rule(channel@, text@) + counter_rule(
        text@,
        counter_user@,
    ));
    actions
}

/// Whether a bot sent the event's message.
pub fn sent_by_bot(event: &InboundEvent) -> (r: bool)
    ensures
        r == is_bot(event@),
{
    match &event.subtype {
        Some(s) => same_text(s.as_str(), "bot_message"),
        None => false,
    }
}

/// The event's message text in lower case, the form the command rules
/// are applied to.
pub fn command_text(event: &InboundEvent) -> (text: String)
    ensures
        text@ == command_text_of(event@),
{
    to_lower(field_or(&event.text, "invalid_text"))
}

/// Decides which actions an event calls for.
///
/// A `team_join` event asks for onboarding. Independently, a message in
/// the allowed channel that no bot sent asks for a reply when its
/// lower-cased text is exactly `ping`, and for a counter increment when
/// that text contains `buns`.
pub fn classify(event: &InboundEvent) -> (actions: Vec<ActionRequest>)
    ensures
        action_models(actions@) == classification(event@),
{
    let mut actions = onboarding(event);
    let text = command_text(event);
    let mut commands = command_actions(
        field_or(&event.channel, "invalid_channel"),
        sent_by_bot(event),
        text.as_str(),
        field_or(&event.enterprise_id, "invalid_channel"),
    );
    proof {
        lemma_action_models_concat(actions@, commands@);
    }
    actions.append(&mut commands);
    actions
}

} // verus!
