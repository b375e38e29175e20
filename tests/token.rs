use twitch_notify::structs::AppAccessTokenResponse;
use twitch_notify::token::{TokenLookup, TwitchAccessToken};

fn response(token: &str, ttl: u32) -> AppAccessTokenResponse {
    AppAccessTokenResponse {
        access_token: token.to_string(),
        expires_in: ttl,
        token_type: "bearer".to_string(),
    }
}

#[test]
fn token_expired_one_second_ago_needs_refresh() {
    let now = 1_700_000_000u64;
    let t = TwitchAccessToken { access_token: "tok".to_string(), expires_at: now - 1 };
    assert_eq!(t.lookup(now), TokenLookup::Refresh);
    assert!(!t.is_valid_at(now));
}

#[test]
fn token_far_in_future_is_reused() {
    let now = 1_700_000_000u64;
    let t = TwitchAccessToken { access_token: "tok".to_string(), expires_at: now + 1_000_000 };
    for later in [now, now + 1, now + 3600, now + 999_999] {
        assert_eq!(t.lookup(later), TokenLookup::Cached("tok".to_string()));
    }
}

#[test]
fn token_expiring_now_needs_refresh() {
    let t = TwitchAccessToken { access_token: "tok".to_string(), expires_at: 50 };
    assert_eq!(t.lookup(50), TokenLookup::Refresh);
    assert_eq!(t.lookup(49), TokenLookup::Cached("tok".to_string()));
}

#[test]
fn empty_token_needs_refresh() {
    let t = TwitchAccessToken::empty();
    assert_eq!(t.lookup(0), TokenLookup::Refresh);
    let blank = TwitchAccessToken { access_token: String::new(), expires_at: u64::MAX };
    assert_eq!(blank.lookup(0), TokenLookup::Refresh);
}

#[test]
fn stored_token_is_used_until_expiry() {
    let mut t = TwitchAccessToken::empty();
    t.store(&response("fresh", 3600), 1000);
    assert_eq!(t.access_token, "fresh");
    assert_eq!(t.expires_at, 4600);
    assert_eq!(t.lookup(4599), TokenLookup::Cached("fresh".to_string()));
    assert_eq!(t.lookup(4600), TokenLookup::Refresh);
}

#[test]
fn stored_expiry_saturates() {
    let mut t = TwitchAccessToken::empty();
    t.store(&response("x", 10), u64::MAX - 3);
    assert_eq!(t.expires_at, u64::MAX);
}
