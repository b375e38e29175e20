//! Handling of webhook messages.
//!
//! `handle_eventsub` checks the signature before anything reads the body and
//! says which payload to parse; `dispatch` turns the parsed payload into the
//! reply and the follow-up work. Once the signature holds, every reply but
//! the one for a malformed body is 200, so that the platform never counts a
//! delivery as failed.
use vstd::prelude::*;

use crate::structs::{
    message_type_text, EventsubRevocationPayload, TwitchChallengePayload,
    TwitchNotificationPayload, TwitchSubscriptionStatus,
};
use crate::webhook::{signature_valid, verify_signature};

verus! {

/// What to do with a webhook message before its body is read.
#[derive(Clone, Copy, Debug, PartialEq, Eq)]
pub enum WebhookStep {
    /// The signature does not hold: reply 401 and read nothing.
    Unauthorized,
    /// Parse a handshake payload.
    Challenge,
    /// Parse a stream-online payload.
    Notification,
    /// Parse a revocation payload.
    Revocation,
    /// Any other message type: reply 200 with an empty body.
    Acknowledge,
}

/// A parsed webhook payload.
#[derive(Clone, Debug, PartialEq, Eq)]
pub enum WebhookEvent {
    Challenge(TwitchChallengePayload),
    Notification(TwitchNotificationPayload),
    Revocation(EventsubRevocationPayload),
}

/// Work that follows the reply.
#[derive(Clone, Copy, Debug, PartialEq, Eq)]
pub enum FollowUp {
    Nothing,
    /// Look up this broadcaster's live stream and notify the bot.
    NotifyBot(i32),
    /// The platform revoked this broadcaster's subscription: drop it locally.
    DropBroadcaster(i32),
}

/// Status and body of a webhook reply.
#[derive(Clone, Debug, PartialEq, Eq)]
pub struct WebhookReply {
    pub status: u16,
    pub body: String,
}

/// The step for a verified message of type `message_type`.
pub open spec fn step_for(message_type: Seq<char>) -> WebhookStep {
    if message_type == message_type_text(TwitchSubscriptionStatus::WebhookCallbackVerification) {
        WebhookStep::Challenge
    } else if message_type == message_type_text(TwitchSubscriptionStatus::Notification) {
        WebhookStep::Notification
    } else if message_type == message_type_text(TwitchSubscriptionStatus::Revocation) {
        WebhookStep::Revocation
    } else {
        WebhookStep::Acknowledge
    }
}

fn is_message_type(message_type: &str, kind: TwitchSubscriptionStatus) -> (r: bool)
    ensures
        r == (message_type@ == message_type_text(kind)),
{
    String::from_str(message_type) == String::from_str(kind.as_str())
}

/// Checks a webhook message's signature and says what to do next; the body
/// is only read for the signature.
pub fn handle_eventsub(
    message_id: &[u8],
    timestamp: &[u8],
    signature: &[u8],
    message_type: &str,
    body: &[u8],
    secret: &[u8],
) -> (r: WebhookStep)
    ensures
        !signature_valid(message_id@, timestamp@, body@, signature@, secret@) ==> r
            == WebhookStep::Unauthorized,
        signature_valid(message_id@, timestamp@, body@, signature@, secret@) ==> r == step_for(
            message_type@,
        ),
{
    if !verify_signature(message_id, timestamp, body, signature, secret) {
        return WebhookStep::Unauthorized;
    }
    if is_message_type(message_type, TwitchSubscriptionStatus::WebhookCallbackVerification) {
        WebhookStep::Challenge
    } else if is_message_type(message_type, TwitchSubscriptionStatus::Notification) {
        WebhookStep::Notification
    } else if is_message_type(message_type, TwitchSubscriptionStatus::Revocation) {
        WebhookStep::Revocation
    } else {
        WebhookStep::Acknowledge
    }
}

pub open spec fn unauthorized_body() -> Seq<char> {
    "{\"code\":401,\"message\":\"Invalid signature provided.\"}"@
}

pub open spec fn malformed_body() -> Seq<char> {
    "{\"code\":400,\"message\":\"Cannot parse given body.\"}"@
}

/// Reply to a message whose signature does not hold.
pub fn unauthorized_reply() -> (r: WebhookReply)
    ensures
        r.status == 401,
        r.body@ == unauthorized_body(),
{
    WebhookReply {
        status: 401,
        body: String::from_str("{\"code\":401,\"message\":\"Invalid signature provided.\"}"),
    }
}

/// Reply to a verified message whose body does not parse.
pub fn malformed_reply() -> (r: WebhookReply)
    ensures
        r.status == 400,
        r.body@ == malformed_body(),
{
    WebhookReply {
        status: 400,
        body: String::from_str("{\"code\":400,\"message\":\"Cannot parse given body.\"}"),
    }
}

/// Reply 200 with an empty body.
pub fn acknowledge_reply() -> (r: WebhookReply)
    ensures
        r.status == 200,
        r.body@.len() == 0,
{
    WebhookReply { status: 200, body: String::new() }
}

/// Reply and follow-up for a verified, parsed payload: a handshake echoes
/// its challenge; a notification asks for the bot to be told; a revocation
/// asks for the broadcaster to be dropped without a remote delete.
pub fn dispatch(event: WebhookEvent) -> (r: (WebhookReply, FollowUp))
    ensures
        r.0.status == 200,
        match event {
            WebhookEvent::Challenge(p) => r.0.body@ == p.challenge@ && r.1 == FollowUp::Nothing,
            WebhookEvent::Notification(p) => r.0.body@.len() == 0 && r.1 == FollowUp::NotifyBot(
                p.event.broadcaster_user_id,
            ),
            WebhookEvent::Revocation(p) => r.0.body@.len() == 0 && r.1
                == FollowUp::DropBroadcaster(p.subscription.condition.broadcaster_user_id),
        },
{
    match event {
        WebhookEvent::Challenge(p) => (
            WebhookReply { status: 200, body: p.challenge },
            FollowUp::Nothing,
        ),
        WebhookEvent::Notification(p) => (
            acknowledge_reply(),
            FollowUp::NotifyBot(p.event.broadcaster_user_id),
        ),
        WebhookEvent::Revocation(p) => (
            acknowledge_reply(),
            FollowUp::DropBroadcaster(p.subscription.condition.broadcaster_user_id),
        ),
    }
}

} // verus!
