use twitch_notify::api::{
    app_token_result, create_subscription_result, delete_subscription_result,
    existing_subscription_id, stream_result, subscription_lookup_result, user_result,
    user_token_result, CreateOutcome,
};
use twitch_notify::error::Error;
use twitch_notify::structs::{
    AppAccessTokenResponse, EventsubCondition, EventsubTransportData, EventsubType, StreamData,
    TokenExchangeResponse, TwitchEventsub, TwitchEventsubResponse, TwitchStreamsResponse,
    TwitchUser, TwitchUserResponse,
};

fn user(id: i32) -> TwitchUser {
    TwitchUser {
        id,
        login: "caster".to_string(),
        display_name: "Caster".to_string(),
        kind: String::new(),
        email: String::new(),
        broadcaster_type: String::new(),
        description: String::new(),
        profile_image_url: String::new(),
        offline_image_url: String::new(),
        created_at: String::new(),
    }
}

fn eventsub(id: &str) -> TwitchEventsub {
    TwitchEventsub {
        id: id.to_string(),
        status: "enabled".to_string(),
        event_type: EventsubType::StreamOnline,
        version: "1".to_string(),
        condition: EventsubCondition { broadcaster_user_id: "555".to_string() },
        created_at: String::new(),
        transport: EventsubTransportData {
            method: "webhook".to_string(),
            callback: String::new(),
            secret: None,
        },
        cost: 1,
    }
}

fn stream(user_id: i32) -> StreamData {
    StreamData {
        id: 1,
        user_id,
        user_login: "caster".to_string(),
        user_name: "Caster".to_string(),
        game_id: 7,
        game_name: "Chess".to_string(),
        kind: "live".to_string(),
        title: "Hello".to_string(),
        viewer_count: 3,
        started_at: "2024-01-01T00:00:00Z".to_string(),
        thumbnail_url: "https://img.example.org/t.png".to_string(),
        language: "en".to_string(),
        tags: vec![],
    }
}

#[test]
fn app_token_ok_and_errors() {
    let body = AppAccessTokenResponse {
        access_token: "tok".to_string(),
        expires_in: 60,
        token_type: "bearer".to_string(),
    };
    assert_eq!(app_token_result(200, Some(body.clone()), String::new()), Ok(body.clone()));
    assert_eq!(
        app_token_result(403, Some(body), "denied".to_string()),
        Err(Error::Twitch(403, "denied".to_string()))
    );
    assert_eq!(
        app_token_result(200, None, "garbage".to_string()),
        Err(Error::Twitch(200, "garbage".to_string()))
    );
}

#[test]
fn user_token_ok_and_error() {
    let body = TokenExchangeResponse {
        access_token: "user-tok".to_string(),
        token_type: "bearer".to_string(),
        expires_in: 100,
        refresh_token: "r".to_string(),
    };
    assert_eq!(user_token_result(200, Some(body), String::new()), Ok("user-tok".to_string()));
    assert_eq!(
        user_token_result(400, None, "Invalid authorization code".to_string()),
        Err(Error::Twitch(400, "Invalid authorization code".to_string()))
    );
}

#[test]
fn user_lookup_outcomes() {
    let body = TwitchUserResponse { data: vec![user(555), user(556)] };
    assert_eq!(user_result(200, Some(body), String::new()), Ok(user(555)));
    assert_eq!(
        user_result(200, Some(TwitchUserResponse { data: vec![] }), String::new()),
        Err(Error::Twitch(200, "Received empty user response".to_string()))
    );
    assert_eq!(user_result(400, None, String::new()), Err(Error::Auth(400)));
    assert_eq!(user_result(401, None, String::new()), Err(Error::Auth(401)));
    assert_eq!(
        user_result(503, None, "down".to_string()),
        Err(Error::Twitch(503, "down".to_string()))
    );
}

#[test]
fn subscription_create_outcomes() {
    let body = TwitchEventsubResponse { data: vec![eventsub("es1")] };
    assert_eq!(
        create_subscription_result(202, Some(body), String::new()),
        CreateOutcome::Created("es1".to_string())
    );
    assert_eq!(create_subscription_result(409, None, String::new()), CreateOutcome::AlreadyExists);
    assert_eq!(
        create_subscription_result(400, None, "bad".to_string()),
        CreateOutcome::Failed(Error::Twitch(400, "bad".to_string()))
    );
    assert_eq!(
        create_subscription_result(202, Some(TwitchEventsubResponse { data: vec![] }), "empty".to_string()),
        CreateOutcome::Failed(Error::Twitch(202, "empty".to_string()))
    );
}

#[test]
fn conflict_reuses_listed_subscription() {
    let listed = TwitchEventsubResponse { data: vec![eventsub("es9"), eventsub("es10")] };
    let found = subscription_lookup_result(200, Some(listed), String::new()).unwrap();
    assert_eq!(existing_subscription_id(found), Ok("es9".to_string()));
    let none = subscription_lookup_result(200, Some(TwitchEventsubResponse { data: vec![] }), String::new())
        .unwrap();
    assert_eq!(none, None);
    assert_eq!(
        existing_subscription_id(none),
        Err(Error::InternalServer("Cannot find existing eventsub for user".to_string()))
    );
    assert_eq!(
        subscription_lookup_result(500, None, "oops".to_string()),
        Err(Error::Twitch(500, "oops".to_string()))
    );
}

#[test]
fn subscription_delete_outcomes() {
    assert_eq!(delete_subscription_result(204, String::new()), Ok(()));
    assert_eq!(delete_subscription_result(404, String::new()), Ok(()));
    assert_eq!(
        delete_subscription_result(401, "no".to_string()),
        Err(Error::Twitch(401, "no".to_string()))
    );
}

#[test]
fn stream_lookup_outcomes() {
    let body = TwitchStreamsResponse { data: vec![stream(555)] };
    assert_eq!(stream_result(200, Some(body), String::new()), Ok(stream(555)));
    assert_eq!(
        stream_result(200, Some(TwitchStreamsResponse { data: vec![] }), String::new()),
        Err(Error::Twitch(200, "No stream data returned.".to_string()))
    );
    assert_eq!(
        stream_result(429, None, "slow down".to_string()),
        Err(Error::Twitch(429, "slow down".to_string()))
    );
}

#[test]
fn error_statuses_and_messages() {
    assert_eq!(Error::BadRequest("x".to_string()).status_code(), 400);
    assert_eq!(Error::Conflict.status_code(), 409);
    assert_eq!(Error::Twitch(500, "raw body".to_string()).status_code(), 502);
    assert_eq!(Error::Auth(401).status_code(), 502);
    assert_eq!(Error::Awc("timeout".to_string()).status_code(), 502);
    assert_eq!(Error::Mutex.status_code(), 500);
    assert_eq!(Error::SQLx("db".to_string()).status_code(), 500);
    assert_eq!(Error::InternalServer("x".to_string()).status_code(), 500);
    assert_eq!(Error::Twitch(500, "raw body".to_string()).message(), "The Twitch API returned an error");
    assert_eq!(Error::Conflict.message(), "Notification already exists");
    assert_eq!(Error::BadRequest("Cannot parse given body.".to_string()).message(), "Cannot parse given body.");
    assert_eq!(
        Error::SQLx("secret details".to_string()).message(),
        "An error occurred while executing a database query"
    );
    assert_eq!(Error::Mutex.message(), "Could not lock mutex");
}
