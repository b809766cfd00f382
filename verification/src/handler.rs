//! One request from raw body to response: parse, answer the handshake,
//! classify.

use vstd::prelude::*;
use crate::action::{action_models, classification, classify, ActionModel, ActionRequest};
use crate::challenge::{challenge_reply, respond_to_challenge};
use crate::event::{event_of, read_event, EventModel, InboundEvent};
use crate::json::{
    error_text, json_document, json_strings, parse_json, single_string, string_object, Path,
};
use crate::notice::{notice_models, notices, notices_of, Notice, NoticeModel};

verus! {

/// Why a request was turned down.
#[derive(Clone, Debug, PartialEq, Eq)]
pub enum PayloadError {
    /// The body is not well-formed JSON; `detail` is the parser's message.
    MalformedPayload { detail: String },
}

/// What a request results in: the challenge value for the response body,
/// the actions the caller has to carry out, in order, and what there is
/// to note about the event.
#[derive(Clone, Debug, PartialEq, Eq)]
pub struct Response {
    pub challenge: String,
    pub actions: Vec<ActionRequest>,
    pub notices: Vec<Notice>,
}

/// Mathematical model of a [`Response`].
pub ghost struct ResponseModel {
    pub challenge: Seq<char>,
    pub actions: Seq<ActionModel>,
    pub notices: Seq<NoticeModel>,
}

impl View for Response {
    type V = ResponseModel;

    open spec fn view(&self) -> ResponseModel {
        ResponseModel {
            challenge: self.challenge@,
            actions: action_models(self.actions@),
            notices: notice_models(self.notices@),
        }
    }
}

/// The response that an event results in.
pub open spec fn response_for(e: EventModel) -> ResponseModel {
    ResponseModel {
        challenge: challenge_reply(e),
        actions: classification(e),
        notices: notices_of(e),
    }
}

/// The event that a body describes, `None` where it is not well-formed JSON.
pub open spec fn payload_event(body: Seq<u8>) -> Option<EventModel> {
    match json_document(body) {
        Some(m) => Some(event_of(m)),
        None => None,
    }
}

/// The response that a body results in, `None` where it is not well-formed
/// JSON.
pub open spec fn outcome(body: Seq<u8>) -> Option<ResponseModel> {
    match payload_event(body) {
        Some(e) => Some(response_for(e)),
        None => None,
    }
}

/// Parses a request body into an event. Fails exactly when the body is not
/// well-formed JSON; no shape is asked of a well-formed one.
pub fn parse_payload(body: &[u8]) -> (r: Result<InboundEvent, PayloadError>)
    ensures
        match r {
            Ok(event) => payload_event(body@) == Some(event@),
            Err(_) => payload_event(body@) is None,
        },
{
    match parse_json(body) {
        Ok(value) => Ok(read_event(&value)),
        Err(e) => Err(PayloadError::MalformedPayload { detail: error_text(&e) }),
    }
}

/// Answers the handshake and classifies an event.
pub fn respond(event: &InboundEvent) -> (r: Response)
    ensures
        r@ == response_for(event@),
{
    let challenge = respond_to_challenge(event);
    let actions = classify(event);
    let notices = notices(event);
    Response { challenge, actions, notices }
}

/// The strings of the response body: the challenge value under the key
/// `challenge`, and nothing else.
pub open spec fn body_strings(r: ResponseModel) -> Map<Path, Seq<char>> {
    single_string("challenge"@, r.challenge)
}

/// The body to send back for a response: a JSON object whose one member,
/// `challenge`, is the challenge value as a JSON string.
pub fn response_body(response: &Response) -> (body: serde_json::Value)
    ensures
        json_strings(body) == body_strings(response@),
{
    string_object("challenge", response.challenge.as_str())
}

/// Handles one request body. A body that is not well-formed JSON is
/// turned down and asks for no action; every other body gets a response
/// with its challenge value and the actions to perform.
pub fn handle_request(body: &[u8]) -> (r: Result<Response, PayloadError>)
    ensures
        match r {
            Ok(response) => outcome(body@) == Some(response@),
            Err(_) => outcome(body@) is None,
        },
{
    match parse_payload(body) {
        Ok(event) => Ok(respond(&event)),
        Err(e) => Err(e),
    }
}

} // verus!
