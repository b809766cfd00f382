use devil_bot::action::ActionRequest;
use devil_bot::handler::{handle_request, response_body, PayloadError, Response};
use devil_bot::notice::Notice;

fn handled(body: &str) -> Response {
    handle_request(body.as_bytes()).expect("a well-formed body is answered")
}

fn message(channel: &str, text: &str) -> String {
    format!(
        "{{\"enterprise_id\":\"E42\",\"event\":{{\"type\":\"message\",\"channel\":\"{}\",\"text\":\"{}\"}}}}",
        channel, text
    )
}

fn bot_message(channel: &str, text: &str) -> String {
    format!(
        "{{\"enterprise_id\":\"E42\",\"event\":{{\"type\":\"message\",\"subtype\":\"bot_message\",\"channel\":\"{}\",\"text\":\"{}\"}}}}",
        channel, text
    )
}

#[test]
fn challenge_is_echoed_verbatim() {
    let r = handled("{\"token\":\"tok\",\"challenge\":\"3eZbrw1aBm2rZgRNFdxV2595E9CY3gmdALWMmHkvFXO7tYXAYM8P\",\"type\":\"url_verification\"}");
    assert_eq!(r.challenge, "3eZbrw1aBm2rZgRNFdxV2595E9CY3gmdALWMmHkvFXO7tYXAYM8P");
    assert!(r.actions.is_empty());
}

#[test]
fn challenge_keeps_case_spaces_and_escapes() {
    let r = handled("{\"challenge\":\" MiXed \\\"Case\\\" \\u00e9\\n\"}");
    assert_eq!(r.challenge, " MiXed \"Case\" \u{e9}\n");
}

#[test]
fn empty_challenge_is_echoed_as_empty() {
    let r = handled("{\"challenge\":\"\"}");
    assert_eq!(r.challenge, "");
}

#[test]
fn missing_challenge_gives_the_stand_in() {
    let r = handled("{\"token\":\"tok\",\"type\":\"event_callback\"}");
    assert_eq!(r.challenge, "invalid_challenge");
}

#[test]
fn challenge_that_is_no_string_gives_the_stand_in() {
    assert_eq!(handled("{\"challenge\":17}").challenge, "invalid_challenge");
    assert_eq!(handled("{\"challenge\":null}").challenge, "invalid_challenge");
    assert_eq!(handled("{\"challenge\":{\"challenge\":\"x\"}}").challenge, "invalid_challenge");
}

#[test]
fn nested_challenge_is_not_the_challenge() {
    let r = handled("{\"event\":{\"challenge\":\"inner\"}}");
    assert_eq!(r.challenge, "invalid_challenge");
}

#[test]
fn body_that_is_no_object_is_answered_without_actions() {
    for body in ["[]", "42", "\"challenge\"", "null", "[{\"challenge\":\"x\"}]"] {
        let r = handled(body);
        assert_eq!(r.challenge, "invalid_challenge");
        assert!(r.actions.is_empty());
    }
}

#[test]
fn challenge_comes_with_actions() {
    let r = handled(
        "{\"challenge\":\"abc\",\"enterprise_id\":\"E1\",\"event\":{\"channel\":\"C0351GJ62Q0\",\"text\":\"ping\"}}",
    );
    assert_eq!(r.challenge, "abc");
    assert_eq!(r.actions, vec![ActionRequest::Reply { channel: "C0351GJ62Q0".to_string() }]);
}

#[test]
fn team_join_onboards_once() {
    let r = handled(
        "{\"event\":{\"type\":\"team_join\",\"user\":{\"id\":\"U123\",\"profile\":{\"first_name\":\"Ada\"}}}}",
    );
    assert_eq!(
        r.actions,
        vec![ActionRequest::Onboard { user_id: "U123".to_string(), first_name: "Ada".to_string() }]
    );
}

#[test]
fn team_join_onboards_in_any_channel_and_from_bots() {
    let expected = ActionRequest::Onboard { user_id: "U9".to_string(), first_name: "Bo".to_string() };
    let other_channel = handled(
        "{\"event\":{\"type\":\"team_join\",\"channel\":\"C999\",\"text\":\"ping buns\",\"user\":{\"id\":\"U9\",\"profile\":{\"first_name\":\"Bo\"}}}}",
    );
    assert_eq!(other_channel.actions, vec![expected.clone()]);
    let from_bot = handled(
        "{\"event\":{\"type\":\"team_join\",\"subtype\":\"bot_message\",\"channel\":\"C0351GJ62Q0\",\"text\":\"ping\",\"user\":{\"id\":\"U9\",\"profile\":{\"first_name\":\"Bo\"}}}}",
    );
    assert_eq!(from_bot.actions, vec![expected]);
}

#[test]
fn team_join_comes_before_the_commands() {
    let r = handled(
        "{\"enterprise_id\":\"E7\",\"event\":{\"type\":\"team_join\",\"channel\":\"C0351GJ62Q0\",\"text\":\"Buns!\",\"user\":{\"id\":\"U9\",\"profile\":{\"first_name\":\"Bo\"}}}}",
    );
    assert_eq!(
        r.actions,
        vec![
            ActionRequest::Onboard { user_id: "U9".to_string(), first_name: "Bo".to_string() },
            ActionRequest::IncrementCounter { user_id: "E7".to_string() },
        ]
    );
}

#[test]
fn team_join_without_user_uses_the_stand_ins() {
    let r = handled("{\"event\":{\"type\":\"team_join\"}}");
    assert_eq!(
        r.actions,
        vec![ActionRequest::Onboard {
            user_id: "invalid_user_name".to_string(),
            first_name: String::new(),
        }]
    );
}

#[test]
fn event_type_is_compared_exactly() {
    assert!(handled("{\"event\":{\"type\":\"TEAM_JOIN\"}}").actions.is_empty());
    assert!(handled("{\"event\":{\"type\":\"team_join \"}}").actions.is_empty());
    assert!(handled("{\"type\":\"team_join\"}").actions.is_empty());
}

#[test]
fn other_channels_get_no_reply_and_no_count() {
    for text in ["ping", "buns", "ping buns", "hello", ""] {
        assert!(handled(&message("C0000000000", text)).actions.is_empty());
        assert!(handled(&message("c0351gj62q0", text)).actions.is_empty());
        assert!(handled(&message("", text)).actions.is_empty());
    }
}

#[test]
fn missing_channel_gets_no_reply_and_no_count() {
    let r = handled("{\"enterprise_id\":\"E42\",\"event\":{\"text\":\"ping\"}}");
    assert!(r.actions.is_empty());
}

#[test]
fn bot_messages_get_no_reply_and_no_count() {
    for text in ["ping", "buns", "PING buns", "hello"] {
        assert!(handled(&bot_message("C0351GJ62Q0", text)).actions.is_empty());
    }
}

#[test]
fn other_subtypes_are_obeyed() {
    let r = handled(
        "{\"event\":{\"subtype\":\"thread_broadcast\",\"channel\":\"C0351GJ62Q0\",\"text\":\"ping\"}}",
    );
    assert_eq!(r.actions, vec![ActionRequest::Reply { channel: "C0351GJ62Q0".to_string() }]);
}

#[test]
fn ping_is_answered_in_any_case() {
    for text in ["ping", "PING", "Ping", "pInG"] {
        let r = handled(&message("C0351GJ62Q0", text));
        assert_eq!(r.actions, vec![ActionRequest::Reply { channel: "C0351GJ62Q0".to_string() }]);
    }
}

#[test]
fn ping_must_be_the_whole_text() {
    for text in ["ping ", " ping", "ping!", "pingping", "pin"] {
        assert!(handled(&message("C0351GJ62Q0", text)).actions.is_empty());
    }
}

#[test]
fn buns_anywhere_in_the_text_is_counted_once() {
    for text in ["buns", "BUNS", "I love Buns!", "hotbunsnow", "buns buns buns"] {
        let r = handled(&message("C0351GJ62Q0", text));
        assert_eq!(r.actions, vec![ActionRequest::IncrementCounter { user_id: "E42".to_string() }]);
    }
}

#[test]
fn ping_buns_in_capitals_is_counted_and_not_answered() {
    let r = handled(&message("C0351GJ62Q0", "PING buns"));
    assert_eq!(r.actions, vec![ActionRequest::IncrementCounter { user_id: "E42".to_string() }]);
}

#[test]
fn hello_is_no_command() {
    let r = handled(&message("C0351GJ62Q0", "hello"));
    assert!(r.actions.is_empty());
    assert_eq!(r.challenge, "invalid_challenge");
    assert_eq!(r.notices.last(), Some(&Notice::InvalidCommand { text: "hello".to_string() }));
}

#[test]
fn near_misses_of_buns_are_not_counted() {
    for text in ["bun", "b uns", "bu\\nns", "snub", "bu ns"] {
        assert!(handled(&message("C0351GJ62Q0", text)).actions.is_empty());
    }
}

#[test]
fn missing_text_is_no_command() {
    let r = handled("{\"enterprise_id\":\"E42\",\"event\":{\"channel\":\"C0351GJ62Q0\"}}");
    assert!(r.actions.is_empty());
}

#[test]
fn count_without_enterprise_id_uses_the_stand_in() {
    let r = handled("{\"event\":{\"channel\":\"C0351GJ62Q0\",\"text\":\"buns\"}}");
    assert_eq!(
        r.actions,
        vec![ActionRequest::IncrementCounter { user_id: "invalid_channel".to_string() }]
    );
}

#[test]
fn malformed_body_is_turned_down() {
    for body in ["", "{", "{\"challenge\":\"abc\"", "{'challenge':'abc'}", "{\"a\":1} trailing", "not json"] {
        let r = handle_request(body.as_bytes());
        assert!(matches!(r, Err(PayloadError::MalformedPayload { .. })));
    }
}

#[test]
fn bytes_that_are_no_text_are_turned_down() {
    let r = handle_request(&[0x7b, 0x22, 0xff, 0xfe, 0x22, 0x3a, 0x31, 0x7d]);
    assert!(matches!(r, Err(PayloadError::MalformedPayload { .. })));
}

#[test]
fn malformed_body_names_the_fault() {
    match handle_request(b"{") {
        Err(PayloadError::MalformedPayload { detail }) => assert!(!detail.is_empty()),
        Ok(_) => panic!("an unfinished object is not well-formed"),
    }
}

#[test]
fn response_body_holds_the_challenge_only() {
    let r = handled("{\"challenge\":\"abc\",\"event\":{\"channel\":\"C0351GJ62Q0\",\"text\":\"ping\"}}");
    let body = response_body(&r);
    assert_eq!(body.to_string(), "{\"challenge\":\"abc\"}");
    let expected: serde_json::Value = serde_json::from_str("{\"challenge\":\"abc\"}").unwrap();
    assert_eq!(body, expected);
}

#[test]
fn response_body_without_challenge_holds_the_stand_in() {
    let body = response_body(&handled("{}"));
    assert_eq!(body.to_string(), "{\"challenge\":\"invalid_challenge\"}");
}

#[test]
fn response_body_round_trips_through_the_handler() {
    let first = handled("{\"challenge\":\"q\\\"uo\\\\te \\u00e9\"}");
    assert_eq!(first.challenge, "q\"uo\\te \u{e9}");
    let again = handled(&response_body(&first).to_string());
    assert_eq!(again.challenge, first.challenge);
}
