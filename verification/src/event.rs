//! The inbound event record and how it is read out of a JSON document.

use vstd::prelude::*;
use crate::json::{as_text, member, strings_under, text_in, json_strings, Path};

verus! {

/// The fields of an inbound notification that the rules look at. Every
/// field is optional: a member that is absent, or present but not a JSON
/// string, is `None`.
#[derive(Clone, Debug, PartialEq, Eq)]
pub struct InboundEvent {
    /// Top-level `token`.
    pub token: Option<String>,
    /// Top-level `challenge`.
    pub challenge: Option<String>,
    /// Top-level `type`.
    pub message_type: Option<String>,
    /// `event.type`.
    pub event_type: Option<String>,
    /// `event.user.id`.
    pub user_id: Option<String>,
    /// `event.user.profile.first_name`.
    pub first_name: Option<String>,
    /// `event.channel`.
    pub channel: Option<String>,
    /// `event.text`.
    pub text: Option<String>,
    /// `event.subtype`.
    pub subtype: Option<String>,
    /// Top-level `enterprise_id`.
    pub enterprise_id: Option<String>,
}

/// Mathematical model of an [`InboundEvent`].
pub ghost struct EventModel {
    pub token: Option<Seq<char>>,
    pub challenge: Option<Seq<char>>,
    pub message_type: Option<Seq<char>>,
    pub event_type: Option<Seq<char>>,
    pub user_id: Option<Seq<char>>,
    pub first_name: Option<Seq<char>>,
    pub channel: Option<Seq<char>>,
    pub text: Option<Seq<char>>,
    pub subtype: Option<Seq<char>>,
    pub enterprise_id: Option<Seq<char>>,
}

/// The characters of an optional string.
pub open spec fn opt_text(s: Option<String>) -> Option<Seq<char>> {
    match s {
        Some(t) => Some(t@),
        None => None,
    }
}

impl View for InboundEvent {
    type V = EventModel;

    open spec fn view(&self) -> EventModel {
        EventModel {
            token: opt_text(self.token),
            challenge: opt_text(self.challenge),
            message_type: opt_text(self.message_type),
            event_type: opt_text(self.event_type),
            user_id: opt_text(self.user_id),
            first_name: opt_text(self.first_name),
            channel: opt_text(self.channel),
            text: opt_text(self.text),
            subtype: opt_text(self.subtype),
            enterprise_id: opt_text(self.enterprise_id),
        }
    }
}

/// `s` if present, else `default`.
pub open spec fn text_or(s: Option<Seq<char>>, default: Seq<char>) -> Seq<char> {
    match s {
        Some(t) => t,
        None => default,
    }
}

/// The text of an optional field, or `default` where the field is `None`.
pub fn field_or<'a>(field: &'a Option<String>, default: &'a str) -> (r: &'a str)
    ensures
        r@ == text_or(opt_text(*field), default@),
{
    match field {
        Some(s) => s.as_str(),
        None => default,
    }
}

/// The model of an event none of whose fields is present.
pub open spec fn blank_event() -> EventModel {
    EventModel {
        token: None,
        challenge: None,
        message_type: None,
        event_type: None,
        user_id: None,
        first_name: None,
        channel: None,
        text: None,
        subtype: None,
        enterprise_id: None,
    }
}

impl Default for InboundEvent {
    /// The event none of whose fields is present.
    fn default() -> (event: InboundEvent)
        ensures
            event@ == blank_event(),
    {
        InboundEvent {
            token: None,
            challenge: None,
            message_type: None,
            event_type: None,
            user_id: None,
            first_name: None,
            channel: None,
            text: None,
            subtype: None,
            enterprise_id: None,
        }
    }
}

/// A path of one key.
pub open spec fn path1(a: Seq<char>) -> Path {
    seq![a]
}

/// A path of two keys.
pub open spec fn path2(a: Seq<char>, b: Seq<char>) -> Path {
    seq![a, b]
}

/// A path of three keys.
pub open spec fn path3(a: Seq<char>, b: Seq<char>, c: Seq<char>) -> Path {
    seq![a, b, c]
}

/// A path of four keys.
pub open spec fn path4(a: Seq<char>, b: Seq<char>, c: Seq<char>, d: Seq<char>) -> Path {
    seq![a, b, c, d]
}

/// The event that a document with the strings `m` describes.
pub open spec fn event_of(m: Map<Path, Seq<char>>) -> EventModel {
    EventModel {
        token: text_in(m, path1("token"@)),
        challenge: text_in(m, path1("challenge"@)),
        message_type: text_in(m, path1("type"@)),
        event_type: text_in(m, path2("event"@, "type"@)),
        user_id: text_in(m, path3("event"@, "user"@, "id"@)),
        first_name: text_in(m, path4("event"@, "user"@, "profile"@, "first_name"@)),
        channel: text_in(m, path2("event"@, "channel"@)),
        text: text_in(m, path2("event"@, "text"@)),
        subtype: text_in(m, path2("event"@, "subtype"@)),
        enterprise_id: text_in(m, path1("enterprise_id"@)),
    }
}

/// Looking below `key` and then at `rest` is looking at `key` followed by `rest`.
pub proof fn lemma_text_under(m: Map<Path, Seq<char>>, key: Seq<char>, rest: Path)
    ensures
        text_in(strings_under(m, key), rest) == text_in(m, seq![key] + rest),
{
}

/// The string member `key` of `v` as an owned string, if `v` is an object
/// that holds a string under that key.
pub fn string_member(v: &serde_json::Value, key: &str) -> (r: Option<String>)
    ensures
        opt_text(r) == text_in(json_strings(*v), path1(key@)),
{
    let found = as_text(member(v, key));
    proof {
        lemma_text_under(json_strings(*v), key@, Seq::empty());
        assert(seq![key@] + Seq::<Seq<char>>::empty() =~= path1(key@));
    }
    match found {
        Some(s) => Some(s.to_owned()),
        None => None,
    }
}

/// Reads the fields of an inbound event out of a parsed document. Nothing
/// is required of the document's shape: whatever is missing is `None`.
pub fn read_event(body: &serde_json::Value) -> (event: InboundEvent)
    ensures
        event@ == event_of(json_strings(*body)),
{
    let ghost m = json_strings(*body);
    let inner = member(body, "event");
    let user = member(inner, "user");
    let profile = member(user, "profile");
    proof {
        let e = "event"@;
        let u = "user"@;
        let p = "profile"@;
        assert forall|k: Seq<char>|
            text_in(json_strings(*inner), path1(k)) == text_in(m, path2(e, k)) by {
            lemma_text_under(m, e, path1(k));
            assert(seq![e] + path1(k) =~= path2(e, k));
        }
        assert forall|k: Seq<char>|
            text_in(json_strings(*user), path1(k)) == text_in(m, path3(e, u, k)) by {
            lemma_text_under(json_strings(*inner), u, path1(k));
            lemma_text_under(m, e, path2(u, k));
            assert(seq![u] + path1(k) =~= path2(u, k));
            assert(seq![e] + path2(u, k) =~= path3(e, u, k));
        }
        assert forall|k: Seq<char>|
            text_in(json_strings(*profile), path1(k)) == text_in(m, path4(e, u, p, k)) by {
            lemma_text_under(json_strings(*user), p, path1(k));
            lemma_text_under(json_strings(*inner), u, path2(p, k));
            lemma_text_under(m, e, path3(u, p, k));
            assert(seq![p] + path1(k) =~= path2(p, k));
            assert(seq![u] + path2(p, k) =~= path3(u, p, k));
            assert(seq![e] + path3(u, p, k) =~= path4(e, u, p, k));
        }
    }
    InboundEvent {
        token: string_member(body, "token"),
        challenge: string_member(body, "challenge"),
        message_type: string_member(body, "type"),
        event_type: string_member(inner, "type"),
        user_id: string_member(user, "id"),
        first_name: string_member(profile, "first_name"),
        channel: string_member(inner, "channel"),
        text: string_member(inner, "text"),
        subtype: string_member(inner, "subtype"),
        enterprise_id: string_member(body, "enterprise_id"),
    }
}

} // verus!
