//! The custom-bot webhook path.
//!
//! A custom bot posts its JSON payload straight to a fixed webhook URL and
//! carries no authorization header: when a shared secret is configured, a
//! timestamp and an HMAC signature are attached to the payload instead, always
//! as a pair. Delivery itself is the embedding application's concern; this
//! module assembles the exact bytes to post.

use vstd::prelude::*;
use vstd::string::StringSliceAdditionalSpecFns;
use vstd::utf8::encode_utf8;

use crate::json::json_string;
use crate::json::push_json_string;
use crate::json::push_lit;
use crate::json::push_raw;
use crate::signer::dec_signed;
use crate::signer::sign;
use crate::signer::spec_sign;

verus! {

/// Which JSON field carries the message body: the platform uses `content`
/// for plain messages and `card` for card messages.
#[derive(Clone, Copy, PartialEq, Eq, Structural, Debug)]
pub enum BodyField {
    Content,
    Card,
}

/// A webhook payload, ready to be serialized: the message type tag, the
/// pre-encoded JSON body, and — only when a secret is configured — the
/// timestamp and signature pair.
pub struct WebhookPayload {
    pub field: BodyField,
    pub msg_type: String,
    pub body_json: Vec<u8>,
    pub timestamp: Option<i64>,
    pub sign: Option<String>,
}

impl WebhookPayload {
    /// The payload invariant: the timestamp and the signature are attached
    /// atomically — both present or both absent, never exactly one.
    pub open spec fn wf(self) -> bool {
        self.timestamp is Some <==> self.sign is Some
    }

    /// A payload signed at `timestamp` with `secret`.
    pub open spec fn signed_with(self, timestamp: int, secret: Seq<u8>) -> bool {
        &&& self.timestamp == Some(timestamp as i64)
        &&& self.sign is Some
        &&& self.sign->0@ == spec_sign(timestamp, secret)
    }
}

/// The JSON key for the body, with its leading separator.
pub open spec fn body_key(field: BodyField) -> Seq<u8> {
    match field {
        BodyField::Content => ",\"content\":".spec_bytes(),
        BodyField::Card => ",\"card\":".spec_bytes(),
    }
}

/// The serialized form of a payload: one JSON object holding `msg_type`, the
/// body under its field, and — for a signed payload — `timestamp` and `sign`,
/// emitted together or not at all.
pub open spec fn payload_bytes(p: WebhookPayload) -> Seq<u8> {
    "{\"msg_type\":".spec_bytes() + json_string(encode_utf8(p.msg_type@))
        + body_key(p.field) + p.body_json@ + sig_fields(p) + "}".spec_bytes()
}

/// The signature section of the serialized payload: empty for an unsigned
/// payload, the `timestamp` and `sign` fields as a pair for a signed one.
pub open spec fn sig_fields(p: WebhookPayload) -> Seq<u8> {
    match p.timestamp {
        Option::None => Seq::empty(),
        Option::Some(t) => ",\"timestamp\":".spec_bytes() + dec_signed(t as int)
            + ",\"sign\":".spec_bytes() + json_string(encode_utf8(p.sign->0@)),
    }
}

/// A custom bot: the fixed webhook URL it posts to, and the optional shared
/// secret that turns on request signing.
pub struct CustomBot {
    pub webhook_url: String,
    pub secret: Option<String>,
}

impl CustomBot {
    pub fn new(webhook_url: String, secret: Option<String>) -> (r: CustomBot)
        ensures
            r.webhook_url == webhook_url,
            r.secret == secret,
    {
        CustomBot { webhook_url, secret }
    }

    /// Assembles the payload for one send: the body goes under `field`, and
    /// when a secret is configured the `timestamp`/`sign` pair is attached,
    /// signed at `timestamp` — the very value that is transmitted.
    pub fn prepare(&self, field: BodyField, msg_type: &str, body_json: Vec<u8>, timestamp: i64)
        -> (p: WebhookPayload)
        ensures
            p.wf(),
            p.field == field,
            p.msg_type@ == msg_type@,
            p.body_json == body_json,
            match self.secret {
                Option::None => p.timestamp is None,
                Option::Some(s) => p.signed_with(timestamp as int, encode_utf8(s@)),
            },
    {
        match &self.secret {
            Option::None => WebhookPayload {
                field,
                msg_type: msg_type.to_owned(),
                body_json,
                timestamp: Option::None,
                sign: Option::None,
            },
            Option::Some(secret) => {
                let s = sign(timestamp, secret.as_str());
                WebhookPayload {
                    field,
                    msg_type: msg_type.to_owned(),
                    body_json,
                    timestamp: Option::Some(timestamp),
                    sign: Option::Some(s),
                }
            },
        }
    }

    /// Serializes a payload to the bytes that are posted to the webhook URL.
    pub fn serialize_payload(p: &WebhookPayload) -> (r: Vec<u8>)
        requires
            p.wf(),
        ensures
            r@ == payload_bytes(*p),
    {
        let mut out: Vec<u8> = Vec::new();
        push_lit(&mut out, "{\"msg_type\":");
        push_json_string(&mut out, p.msg_type.as_str());
        match p.field {
            BodyField::Content => push_lit(&mut out, ",\"content\":"),
            BodyField::Card => push_lit(&mut out, ",\"card\":"),
        }
        push_raw(&mut out, &p.body_json);
        match &p.timestamp {
            Option::None => {},
            Option::Some(t) => {
                push_lit(&mut out, ",\"timestamp\":");
                let mut ts = crate::signer::format_i64(*t);
                out.append(&mut ts);
                push_lit(&mut out, ",\"sign\":");
                match &p.sign {
                    Option::Some(s) => push_json_string(&mut out, s.as_str()),
                    Option::None => {
                        assert(false);
                    },
                }
            },
        }
        push_lit(&mut out, "}");
        assert(out@ =~= payload_bytes(*p));
        out
    }

    /// Builds the bytes of one plain message send — `msg_type` and `content`
    /// — signed at the current time when a secret is configured.
    pub fn message_body(&self, msg_type: &str, content_json: Vec<u8>) -> (r: Vec<u8>)
        ensures
            exists|p: WebhookPayload|
                {
                    &&& #[trigger] payload_bytes(p) == r@
                    &&& p.wf()
                    &&& p.field == BodyField::Content
                    &&& p.msg_type@ == msg_type@
                    &&& p.body_json@ == content_json@
                    &&& match self.secret {
                        Option::None => p.timestamp is None,
                        Option::Some(s) => exists|t: int| p.signed_with(t, encode_utf8(s@)),
                    }
                },
    {
        let now = now_timestamp();
        let p = self.prepare(BodyField::Content, msg_type, content_json, now);
        let r = Self::serialize_payload(&p);
        proof {
            if self.secret is Some {
                assert(p.signed_with(now as int, encode_utf8(self.secret->0@)));
            }
        }
        r
    }

    /// Builds the bytes of one card send — `msg_type` and `card` — signed at
    /// the current time when a secret is configured.
    pub fn card_body(&self, msg_type: &str, card_json: Vec<u8>) -> (r: Vec<u8>)
        ensures
            exists|p: WebhookPayload|
                {
                    &&& #[trigger] payload_bytes(p) == r@
                    &&& p.wf()
                    &&& p.field == BodyField::Card
                    &&& p.msg_type@ == msg_type@
                    &&& p.body_json@ == card_json@
                    &&& match self.secret {
                        Option::None => p.timestamp is None,
                        Option::Some(s) => exists|t: int| p.signed_with(t, encode_utf8(s@)),
                    }
                },
    {
        let now = now_timestamp();
        let p = self.prepare(BodyField::Card, msg_type, card_json, now);
        let r = Self::serialize_payload(&p);
        proof {
            if self.secret is Some {
                assert(p.signed_with(now as int, encode_utf8(self.secret->0@)));
            }
        }
        r
    }
}

/// Relies on chrono's `Local::now().timestamp()`: the current time as whole
/// seconds since the Unix epoch. Nothing can be promised of the clock's
/// reading, so every timestamp is handled by the callers.
#[verifier::external_body]
fn now_timestamp() -> i64 {
    chrono::Local::now().timestamp()
}

/// Law: a well-formed payload never carries exactly one of the pair — its
/// serialized form holds both the `timestamp` and the `sign` field (a signed
/// payload) or neither (an unsigned one).
pub proof fn lemma_timestamp_sign_atomic(p: WebhookPayload)
    requires
        p.wf(),
    ensures
        p.timestamp is Some ==> sig_fields(p) == ",\"timestamp\":".spec_bytes() + dec_signed(
            p.timestamp->0 as int,
        ) + ",\"sign\":".spec_bytes() + json_string(encode_utf8(p.sign->0@)),
        p.timestamp is None ==> sig_fields(p) == Seq::<u8>::empty()
            && payload_bytes(p) == "{\"msg_type\":".spec_bytes() + json_string(
            encode_utf8(p.msg_type@),
        ) + body_key(p.field) + p.body_json@ + "}".spec_bytes(),
{
    if p.timestamp is None {
        assert(payload_bytes(p) =~= "{\"msg_type\":".spec_bytes() + json_string(
            encode_utf8(p.msg_type@),
        ) + body_key(p.field) + p.body_json@ + "}".spec_bytes());
    }
}

} // verus!
