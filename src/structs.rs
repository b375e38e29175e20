//! Plain data carried between the platform API, the webhook and the registry.
use vstd::prelude::*;

verus! {

/// Event kinds a subscription can be created for, as named by the platform.
#[derive(Clone, Copy, Debug, PartialEq, Eq)]
pub enum EventsubType {
    StreamOnline,
    WebhookCallbackVerificationPending,
    WebhookCallbackVerificationFailed,
    NotificationFailuresExceeded,
    UserRemoved,
    AuthorizationRevoked,
}

/// Status of a remote subscription as reported in webhook payloads.
#[derive(Clone, Copy, Debug, PartialEq, Eq)]
pub enum EventsubStatus {
    Enabled,
    WebhookCallbackVerificationPending,
    WebhookCallbackVerificationFailed,
    NotificationFailuresExceeded,
    AuthorizationRevoked,
    ModeratorRemoved,
    UserRemoved,
    VersionRemoved,
}

#[derive(Clone, Debug, PartialEq, Eq)]
pub struct EventsubCondition {
    pub broadcaster_user_id: String,
}

#[derive(Clone, Debug, PartialEq, Eq)]
pub struct EventsubTransportData {
    pub method: String,
    pub callback: String,
    pub secret: Option<String>,
}

/// A remote subscription as listed or returned by the platform.
#[derive(Clone, Debug, PartialEq, Eq)]
pub struct TwitchEventsub {
    pub id: String,
    pub status: String,
    pub event_type: EventsubType,
    pub version: String,
    pub condition: EventsubCondition,
    pub created_at: String,
    pub transport: EventsubTransportData,
    pub cost: u16,
}

#[derive(Clone, Debug, PartialEq, Eq)]
pub struct TwitchEventsubResponse {
    pub data: Vec<TwitchEventsub>,
}

/// Body of a subscription-create request.
#[derive(Clone, Debug, PartialEq, Eq)]
pub struct CreateTwitchEventsub {
    pub event_type: EventsubType,
    pub version: String,
    pub condition: EventsubCondition,
    pub transport: EventsubTransportData,
}

/// Answer of the client-credentials token exchange.
#[derive(Clone, Debug, PartialEq, Eq)]
pub struct AppAccessTokenResponse {
    pub access_token: String,
    pub expires_in: u32,
    pub token_type: String,
}

/// Inbound registration request: an authorization code and the guild that asks.
#[derive(Clone, Debug, PartialEq, Eq)]
pub struct TwitchCodePayload {
    pub code: String,
    pub guild_id: i64,
}

/// Answer of the authorization-code token exchange.
#[derive(Clone, Debug, PartialEq, Eq)]
pub struct TokenExchangeResponse {
    pub access_token: String,
    pub token_type: String,
    pub expires_in: i32,
    pub refresh_token: String,
}

#[derive(Clone, Debug, PartialEq, Eq)]
pub struct TwitchUser {
    pub id: i32,
    pub login: String,
    pub display_name: String,
    pub kind: String,
    pub email: String,
    pub broadcaster_type: String,
    pub description: String,
    pub profile_image_url: String,
    pub offline_image_url: String,
    pub created_at: String,
}

#[derive(Clone, Debug, PartialEq, Eq)]
pub struct TwitchUserResponse {
    pub data: Vec<TwitchUser>,
}

/// Error body of the data API.
#[derive(Clone, Debug, PartialEq, Eq)]
pub struct TwitchApiErrorResponse {
    pub error: String,
    pub status: i16,
    pub message: String,
}

/// Error body of the auth API.
#[derive(Clone, Debug, PartialEq, Eq)]
pub struct TwitchAuthErrorResponse {
    pub status: u16,
    pub message: String,
}

#[derive(Clone, Debug, PartialEq, Eq)]
pub struct EventsubConditionData {
    pub broadcaster_user_id: i32,
}

/// The subscription a webhook message is about.
#[derive(Clone, Debug, PartialEq, Eq)]
pub struct TwitchSubscriptionData {
    pub id: String,
    pub kind: String,
    pub status: EventsubStatus,
    pub version: String,
    pub cost: u8,
    pub condition: EventsubConditionData,
    pub transport: EventsubTransportData,
    pub created_at: String,
}

#[derive(Clone, Debug, PartialEq, Eq)]
pub struct EventsubEventData {
    pub id: i32,
    pub broadcaster_user_id: i32,
    pub broadcaster_user_login: String,
    pub broadcaster_user_name: String,
    pub started_at: String,
    pub kind: String,
}

/// Payload of the callback-verification handshake.
#[derive(Clone, Debug, PartialEq, Eq)]
pub struct TwitchChallengePayload {
    pub challenge: String,
    pub subscription: TwitchSubscriptionData,
}

/// Payload of a stream-online notification.
#[derive(Clone, Debug, PartialEq, Eq)]
pub struct TwitchNotificationPayload {
    pub subscription: TwitchSubscriptionData,
    pub event: EventsubEventData,
}

/// Payload of a revocation by the platform.
#[derive(Clone, Debug, PartialEq, Eq)]
pub struct EventsubRevocationPayload {
    pub subscription: TwitchSubscriptionData,
}

/// Length of an authorization code, in characters.
pub const CODE_LEN: usize = 28;

impl TwitchCodePayload {
    /// Whether the authorization code has the length the platform issues.
    pub fn is_valid(&self) -> (r: bool)
        ensures
            r == (self.code@.len() == CODE_LEN),
    {
        self.code.as_str().unicode_len() == CODE_LEN
    }
}

/// Webhook message kinds, as carried in the message-type header.
#[derive(Clone, Copy, Debug, PartialEq, Eq)]
pub enum TwitchSubscriptionStatus {
    Notification,
    WebhookCallbackVerification,
    Revocation,
    Enabled,
}

/// Snapshot of a live stream.
#[derive(Clone, Debug, PartialEq, Eq)]
pub struct StreamData {
    pub id: i32,
    pub user_id: i32,
    pub user_login: String,
    pub user_name: String,
    pub game_id: i32,
    pub game_name: String,
    pub kind: String,
    pub title: String,
    pub viewer_count: i32,
    pub started_at: String,
    pub thumbnail_url: String,
    pub language: String,
    pub tags: Vec<String>,
}

#[derive(Clone, Debug, PartialEq, Eq)]
pub struct TwitchStreamsResponse {
    pub data: Vec<StreamData>,
}

/// Opaque state echoed back by the authorization redirect.
#[derive(Clone, Debug, PartialEq, Eq)]
pub struct StatePayload {
    pub state: String,
}

/// The header value of each webhook message kind.
pub open spec fn message_type_text(s: TwitchSubscriptionStatus) -> Seq<char> {
    match s {
        TwitchSubscriptionStatus::Notification => "notification"@,
        TwitchSubscriptionStatus::Revocation => "revocation"@,
        TwitchSubscriptionStatus::WebhookCallbackVerification => "webhook_callback_verification"@,
        TwitchSubscriptionStatus::Enabled => "enabled"@,
    }
}

impl TwitchSubscriptionStatus {
    /// The message-type header value of this kind.
    pub fn as_str(&self) -> (r: &'static str)
        ensures
            r@ == message_type_text(*self),
    {
        match self {
            TwitchSubscriptionStatus::Notification => "notification",
            TwitchSubscriptionStatus::Revocation => "revocation",
            TwitchSubscriptionStatus::WebhookCallbackVerification => "webhook_callback_verification",
            TwitchSubscriptionStatus::Enabled => "enabled",
        }
    }
}

} // verus!
