//! Core of a client for a messaging platform's HTTP/JSON API.
//!
//! The crate covers the protocol logic of the client: HMAC signing for
//! custom-bot webhooks, framing of the outgoing JSON payloads, classification
//! of the platform's response envelope, caching and single-flight refresh of
//! access credentials, the bounded retry rule applied after an authentication
//! rejection, and the builders that assemble card and table-search requests.
//! Network delivery itself is left to the embedding application.

pub mod bitable;
pub mod credential;
pub mod custom_bot;
pub mod date_picker;
pub mod envelope;
pub mod feishu_card;
pub mod json;
pub mod signer;
pub mod strutil;
pub mod transport;
