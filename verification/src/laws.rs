//! Laws of the webhook core, proved from the definitions that the
//! contracts of the executable functions are stated in.

use vstd::prelude::*;
use crate::action::{
    allowed_channel, buns_trigger, channel_of, classification, command_text_of,
    counter_rule, counter_user_of, event_commands, first_name_of, is_bot, onboard_rule,
    ping_command, reply_rule, team_join, user_of, ActionModel,
};
use crate::challenge::no_challenge;
use crate::event::{path1, EventModel};
use crate::handler::{body_strings, outcome};
use crate::json::{json_document, text_in};
use crate::notice::{notices_of, NoticeModel};
use crate::text::{has_substring, occurs_at};

verus! {

/// Handshake round trip: a well-formed body whose top-level `challenge`
/// member is the string `v` is answered, the answer carries exactly `v`,
/// and `v` is what the response body holds under `challenge`.
pub proof fn challenge_round_trip(body: Seq<u8>, v: Seq<char>)
    requires
        json_document(body) is Some,
        text_in(json_document(body)->Some_0, path1("challenge"@)) == Some(v),
    ensures
        outcome(body) is Some,
        outcome(body)->Some_0.challenge == v,
        text_in(body_strings(outcome(body)->Some_0), path1("challenge"@)) == Some(v),
{
}

/// A well-formed body without a string member `challenge` is answered with
/// the stand-in value, which is then what the response body holds under
/// `challenge`.
pub proof fn missing_challenge_gives_stand_in(body: Seq<u8>)
    requires
        json_document(body) is Some,
        text_in(json_document(body)->Some_0, path1("challenge"@)) is None,
    ensures
        outcome(body) is Some,
        outcome(body)->Some_0.challenge == no_challenge(),
        text_in(body_strings(outcome(body)->Some_0), path1("challenge"@)) == Some(no_challenge()),
{
}

/// A body that is not well-formed JSON gets no response, hence no action.
pub proof fn malformed_body_is_rejected(body: Seq<u8>)
    requires
        json_document(body) is None,
    ensures
        outcome(body) is None,
{
}

/// Onboarding fires exactly once for a `team_join` event, with the event's
/// user id and first name, whatever its channel, subtype and text: the first
/// action is that onboarding request and no later action is one.
pub proof fn team_join_onboards_once(e: EventModel)
    requires
        e.event_type == Some(team_join()),
    ensures
        classification(e).len() >= 1,
        classification(e)[0] == (ActionModel::Onboard {
            user_id: user_of(e),
            first_name: first_name_of(e),
        }),
        forall|i: int| 1 <= i < classification(e).len() ==> !(classification(e)[i] is Onboard),
{
}

/// Without a `team_join` event type no onboarding is asked for.
pub proof fn other_events_do_not_onboard(e: EventModel)
    requires
        e.event_type != Some(team_join()),
    ensures
        forall|i: int| 0 <= i < classification(e).len() ==> !(classification(e)[i] is Onboard),
{
}

/// Outside the allowed channel neither a reply nor a counter increment is
/// asked for, whatever the text.
pub proof fn other_channels_are_ignored(e: EventModel)
    requires
        channel_of(e) != allowed_channel(),
    ensures
        forall|i: int|
            0 <= i < classification(e).len() ==> !(classification(e)[i] is Reply) && !(
            classification(e)[i] is IncrementCounter),
{
}

/// A message sent by a bot asks for neither a reply nor a counter
/// increment, whatever its text, in the allowed channel as in any other.
pub proof fn bot_messages_are_ignored(e: EventModel)
    requires
        is_bot(e),
    ensures
        forall|i: int|
            0 <= i < classification(e).len() ==> !(classification(e)[i] is Reply) && !(
            classification(e)[i] is IncrementCounter),
{
}

/// In the allowed channel, for a message that no bot sent, the two command
/// rules are independent: a reply to the channel is asked for exactly when
/// the lower-cased text is the ping command, a counter increment for the
/// event's counter identity exactly when that text contains the trigger
/// word, and each at most once.
pub proof fn commands_follow_the_text(e: EventModel)
    requires
        channel_of(e) == allowed_channel(),
        !is_bot(e),
    ensures
        classification(e) == onboard_rule(e) + reply_rule(channel_of(e), command_text_of(e))
            + counter_rule(command_text_of(e), counter_user_of(e)),
        reply_rule(channel_of(e), command_text_of(e)) == if command_text_of(e) == ping_command() {
            seq![ActionModel::Reply { channel: allowed_channel() }]
        } else {
            Seq::<ActionModel>::empty()
        },
        counter_rule(command_text_of(e), counter_user_of(e)) == if has_substring(
            command_text_of(e),
            buns_trigger(),
        ) {
            seq![ActionModel::IncrementCounter { user_id: counter_user_of(e) }]
        } else {
            Seq::<ActionModel>::empty()
        },
        (exists|i: int| 0 <= i < classification(e).len() && classification(e)[i] is Reply)
            <==> command_text_of(e) == ping_command(),
        (exists|i: int|
            0 <= i < classification(e).len() && classification(e)[i] is IncrementCounter)
            <==> has_substring(command_text_of(e), buns_trigger()),
{
    let c = classification(e);
    let r = reply_rule(channel_of(e), command_text_of(e));
    assert(c =~= onboard_rule(e) + r + counter_rule(command_text_of(e), counter_user_of(e)));
    if command_text_of(e) == ping_command() {
        let k = onboard_rule(e).len() as int;
        assert(c[k] is Reply);
    }
    if has_substring(command_text_of(e), buns_trigger()) {
        let k = (onboard_rule(e).len() + r.len()) as int;
        assert(c[k] is IncrementCounter);
    }
}

/// In the allowed channel, a message that no bot sent and whose lower-cased
/// text is not the ping command gets no reply, and that text is noted, last
/// of all, as an invalid command.
pub proof fn unknown_command_is_noted(e: EventModel)
    requires
        channel_of(e) == allowed_channel(),
        !is_bot(e),
        command_text_of(e) != ping_command(),
    ensures
        forall|i: int| 0 <= i < classification(e).len() ==> !(classification(e)[i] is Reply),
        notices_of(e).last() == (NoticeModel::InvalidCommand { text: command_text_of(e) }),
{
}

/// The ping command does not contain the trigger word.
pub proof fn ping_has_no_buns()
    ensures
        !has_substring(ping_command(), buns_trigger()),
{
    reveal_strlit("ping");
    reveal_strlit("buns");
    let p = ping_command();
    let b = buns_trigger();
    assert(p.len() == 4 && b.len() == 4);
    assert forall|i: int| !occurs_at(p, b, i) by {
        if 0 <= i && i + b.len() <= p.len() {
            assert(p.subrange(i, i + b.len())[0] == 'p');
            assert(b[0] == 'b');
        }
    }
}

/// No message asks for a reply and for a counter increment at once: the
/// reply wants the whole text to be the ping command, and that text does
/// not contain the trigger word. So an event asks for two actions at most.
pub proof fn reply_and_count_exclude_each_other(e: EventModel)
    ensures
        event_commands(e).len() <= 1,
        classification(e).len() <= 2,
{
    ping_has_no_buns();
}

} // verus!
