//! Provider adapters and dispatch for chat-completion HTTP APIs.
//!
//! A [`model::Prompt`] is checked against its size limit, turned into the
//! request that its provider expects, and the provider's reply is turned back
//! into a [`model::Message`]. The library performs no input or output: the
//! caller asks the user, sends the request, and hands the answers back.
//!
//! - [`model`]: messages, prompts, provider tags and API configurations.
//! - [`guard`]: the limit on the total content length of a prompt.
//! - [`adapter`], [`request`], [`response`]: the wire formats of the provider
//!   families, out and back.
//! - [`transport`]: what a reply to a request amounts to.
//! - [`dispatch`]: the sequence of steps from a prompt to a message.
//! - [`laws`]: what holds of every dispatch.
//! - [`json`], [`text`]: JSON documents and plain text.
//! - [`setup`]: the decisions of the first run.
//! - [`error`]: what can go wrong.

pub mod adapter;
pub mod dispatch;
pub mod error;
pub mod guard;
pub mod json;
pub mod laws;
pub mod model;
pub mod request;
pub mod response;
pub mod setup;
pub mod text;
pub mod transport;
