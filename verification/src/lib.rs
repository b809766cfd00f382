//! Decision core of a chat-platform webhook: it reads an inbound event
//! notification, answers the subscription handshake, and decides which
//! side-effecting actions the caller has to perform.
//!
//! The library performs no side effect itself. [`handler::handle_request`]
//! takes the raw request body and returns the challenge value to answer
//! with, the [`action::ActionRequest`]s to carry out and the
//! [`notice::Notice`]s to log; [`config`] resolves required settings and
//! prepares the counter update. [`laws`] holds what is proved of the rules
//! as a whole.

pub mod text;
pub mod json;
pub mod event;
pub mod action;
pub mod challenge;
pub mod notice;
pub mod handler;
pub mod config;
pub mod laws;
