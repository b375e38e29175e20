use hmac::{Hmac, Mac};
use sha2::Sha256;
use twitch_notify::dispatch::{
    dispatch, handle_eventsub, malformed_reply, unauthorized_reply, FollowUp, WebhookEvent,
    WebhookStep,
};
use twitch_notify::structs::{
    EventsubConditionData, EventsubEventData, EventsubRevocationPayload, EventsubStatus,
    EventsubTransportData, TwitchChallengePayload, TwitchNotificationPayload,
    TwitchSubscriptionData, TwitchSubscriptionStatus,
};
use twitch_notify::webhook::verify_signature;

fn sign(secret: &[u8], message: &[u8]) -> String {
    let mut mac = Hmac::<Sha256>::new_from_slice(secret).unwrap();
    mac.update(message);
    format!("sha256={}", hex::encode(mac.finalize().into_bytes()))
}

fn subscription(broadcaster: i32) -> TwitchSubscriptionData {
    TwitchSubscriptionData {
        id: "sub".to_string(),
        kind: "stream.online".to_string(),
        status: EventsubStatus::Enabled,
        version: "1".to_string(),
        cost: 0,
        condition: EventsubConditionData { broadcaster_user_id: broadcaster },
        transport: EventsubTransportData {
            method: "webhook".to_string(),
            callback: "https://example.org/_notify/twitch".to_string(),
            secret: None,
        },
        created_at: "2024-01-01T00:00:00Z".to_string(),
    }
}

#[test]
fn correct_signature_passes() {
    let sig = sign(b"s", b"m1t1{}");
    assert!(verify_signature(b"m1", b"t1", b"{}", sig.as_bytes(), b"s"));
}

#[test]
fn uppercase_hex_signature_passes() {
    let sig = sign(b"s", b"m1t1{}");
    let upper = format!("sha256={}", sig[7..].to_uppercase());
    assert!(verify_signature(b"m1", b"t1", b"{}", upper.as_bytes(), b"s"));
}

#[test]
fn flipped_byte_in_any_part_is_rejected() {
    let sig = sign(b"s", b"m1t1{}");
    let parts: [&[u8]; 3] = [b"m1", b"t1", b"{}"];
    for which in 0..3 {
        for pos in 0..parts[which].len() {
            let mut changed: Vec<Vec<u8>> = parts.iter().map(|p| p.to_vec()).collect();
            changed[which][pos] ^= 0x01;
            assert!(!verify_signature(&changed[0], &changed[1], &changed[2], sig.as_bytes(), b"s"));
        }
    }
}

#[test]
fn wrong_secret_is_rejected() {
    let sig = sign(b"other", b"m1t1{}");
    assert!(!verify_signature(b"m1", b"t1", b"{}", sig.as_bytes(), b"s"));
}

#[test]
fn short_signature_header_is_rejected() {
    assert!(!verify_signature(b"m1", b"t1", b"{}", b"sha256", b"s"));
    assert!(!verify_signature(b"m1", b"t1", b"{}", b"", b"s"));
}

#[test]
fn non_hex_signature_is_rejected() {
    let sig = sign(b"s", b"m1t1{}");
    let bad = format!("{}zz", &sig[..sig.len() - 2]);
    assert!(!verify_signature(b"m1", b"t1", b"{}", bad.as_bytes(), b"s"));
    let odd = &sig[..sig.len() - 1];
    assert!(!verify_signature(b"m1", b"t1", b"{}", odd.as_bytes(), b"s"));
}

#[test]
fn handshake_with_valid_signature_echoes_challenge() {
    let body = br#"{"challenge":"abc","subscription":{}}"#;
    let mut signed = b"m1t1".to_vec();
    signed.extend_from_slice(body);
    let sig = sign(b"s", &signed);
    let step = handle_eventsub(
        b"m1",
        b"t1",
        sig.as_bytes(),
        "webhook_callback_verification",
        body,
        b"s",
    );
    assert_eq!(step, WebhookStep::Challenge);
    let payload = TwitchChallengePayload { challenge: "abc".to_string(), subscription: subscription(555) };
    let (reply, follow) = dispatch(WebhookEvent::Challenge(payload));
    assert_eq!(reply.status, 200);
    assert_eq!(reply.body, "abc");
    assert_eq!(follow, FollowUp::Nothing);
}

#[test]
fn invalid_signature_gives_unauthorized() {
    let body = br#"{"challenge":"abc"}"#;
    let step = handle_eventsub(
        b"m1",
        b"t1",
        b"sha256=00",
        "webhook_callback_verification",
        body,
        b"s",
    );
    assert_eq!(step, WebhookStep::Unauthorized);
    let reply = unauthorized_reply();
    assert_eq!(reply.status, 401);
    assert_eq!(reply.body, r#"{"code":401,"message":"Invalid signature provided."}"#);
}

#[test]
fn message_types_are_told_apart() {
    let sig = sign(b"s", b"m1t1{}");
    let step = |t: &str| handle_eventsub(b"m1", b"t1", sig.as_bytes(), t, b"{}", b"s");
    assert_eq!(step("notification"), WebhookStep::Notification);
    assert_eq!(step("revocation"), WebhookStep::Revocation);
    assert_eq!(step("webhook_callback_verification"), WebhookStep::Challenge);
    assert_eq!(step("enabled"), WebhookStep::Acknowledge);
    assert_eq!(step("something_else"), WebhookStep::Acknowledge);
}

#[test]
fn message_type_texts() {
    assert_eq!(TwitchSubscriptionStatus::Notification.as_str(), "notification");
    assert_eq!(TwitchSubscriptionStatus::Revocation.as_str(), "revocation");
    assert_eq!(
        TwitchSubscriptionStatus::WebhookCallbackVerification.as_str(),
        "webhook_callback_verification"
    );
    assert_eq!(TwitchSubscriptionStatus::Enabled.as_str(), "enabled");
}

#[test]
fn notification_asks_to_notify_bot() {
    let payload = TwitchNotificationPayload {
        subscription: subscription(555),
        event: EventsubEventData {
            id: 9,
            broadcaster_user_id: 555,
            broadcaster_user_login: "caster".to_string(),
            broadcaster_user_name: "Caster".to_string(),
            started_at: "2024-01-01T00:00:00Z".to_string(),
            kind: "live".to_string(),
        },
    };
    let (reply, follow) = dispatch(WebhookEvent::Notification(payload));
    assert_eq!(reply.status, 200);
    assert_eq!(reply.body, "");
    assert_eq!(follow, FollowUp::NotifyBot(555));
}

#[test]
fn revocation_asks_to_drop_broadcaster() {
    let payload = EventsubRevocationPayload { subscription: subscription(777) };
    let (reply, follow) = dispatch(WebhookEvent::Revocation(payload));
    assert_eq!(reply.status, 200);
    assert_eq!(reply.body, "");
    assert_eq!(follow, FollowUp::DropBroadcaster(777));
}

#[test]
fn malformed_body_reply_is_bad_request() {
    let reply = malformed_reply();
    assert_eq!(reply.status, 400);
    assert_eq!(reply.body, r#"{"code":400,"message":"Cannot parse given body."}"#);
}
