use twitch_notify::api::{create_subscription_result, CreateOutcome};
use twitch_notify::error::Error;
use twitch_notify::registry::{NotificationRegistry, Registration, SubscriptionStep};
use twitch_notify::structs::{
    EventsubCondition, EventsubTransportData, EventsubType, TwitchEventsub, TwitchEventsubResponse,
    TwitchUser,
};

fn user(id: i32, name: &str) -> TwitchUser {
    TwitchUser {
        id,
        login: name.to_lowercase(),
        display_name: name.to_string(),
        kind: String::new(),
        email: format!("{}@example.org", name),
        broadcaster_type: String::new(),
        description: String::new(),
        profile_image_url: format!("https://img.example.org/{}.png", id),
        offline_image_url: String::new(),
        created_at: "2020-01-01T00:00:00Z".to_string(),
    }
}

fn created(id: &str, broadcaster: i32) -> TwitchEventsubResponse {
    TwitchEventsubResponse {
        data: vec![TwitchEventsub {
            id: id.to_string(),
            status: "webhook_callback_verification_pending".to_string(),
            event_type: EventsubType::StreamOnline,
            version: "1".to_string(),
            condition: EventsubCondition { broadcaster_user_id: broadcaster.to_string() },
            created_at: "2024-01-01T00:00:00Z".to_string(),
            transport: EventsubTransportData {
                method: "webhook".to_string(),
                callback: "https://example.org/_notify/twitch".to_string(),
                secret: None,
            },
            cost: 1,
        }],
    }
}

/// Runs the create flow for one guild: conflict check, subscription step,
/// remote create answered by `remote_id`, then the local commit.
fn create(reg: &mut NotificationRegistry, guild: i64, u: &TwitchUser, remote_id: &str) -> Result<i32, Error> {
    if reg.is_registered(guild, u.id) {
        return Err(Error::Conflict);
    }
    let sub = match reg.subscription_step(u.id) {
        SubscriptionStep::Reuse(id) => id,
        SubscriptionStep::Create => {
            match create_subscription_result(202, Some(created(remote_id, u.id)), String::new()) {
                CreateOutcome::Created(id) => id,
                other => panic!("unexpected outcome {:?}", other),
            }
        }
    };
    reg.register(guild, u, sub)
}

#[test]
fn create_for_fresh_broadcaster() {
    let mut reg = NotificationRegistry::new();
    let u = user(555, "Caster");
    assert_eq!(reg.subscription_step(555), SubscriptionStep::Create);
    let id = create(&mut reg, 123, &u, "es1").unwrap();
    assert_eq!(id, 1);
    let rows = reg.broadcasters();
    assert_eq!(rows.len(), 1);
    assert_eq!(rows[0].id, 555);
    assert_eq!(rows[0].display_name, "Caster");
    assert_eq!(rows[0].avatar_url, "https://img.example.org/555.png");
    assert_eq!(rows[0].event_subscription_id, Some("es1".to_string()));
    assert_eq!(
        reg.registrations().clone(),
        vec![Registration { id: 1, guild_id: 123, broadcaster_id: 555 }]
    );
}

#[test]
fn delete_guild_releases_last_subscription() {
    let mut reg = NotificationRegistry::new();
    let u = user(555, "Caster");
    create(&mut reg, 123, &u, "es1").unwrap();
    let gone = reg.release_guild(123);
    assert_eq!(gone, vec!["es1".to_string()]);
    assert!(reg.broadcasters().is_empty());
    assert!(reg.registrations().is_empty());
    assert_eq!(reg.subscription_step(555), SubscriptionStep::Create);
}

#[test]
fn second_subscription_step_reuses_stored_id() {
    let mut reg = NotificationRegistry::new();
    let u = user(555, "Caster");
    create(&mut reg, 123, &u, "es1").unwrap();
    assert_eq!(reg.subscription_step(555), SubscriptionStep::Reuse("es1".to_string()));
    assert_eq!(reg.subscription_step(555), SubscriptionStep::Reuse("es1".to_string()));
    // A second guild joins without a new remote subscription.
    create(&mut reg, 124, &u, "es-unused").unwrap();
    assert_eq!(reg.broadcasters().len(), 1);
    assert_eq!(reg.broadcasters()[0].event_subscription_id, Some("es1".to_string()));
}

#[test]
fn duplicate_registration_conflicts() {
    let mut reg = NotificationRegistry::new();
    let u = user(555, "Caster");
    reg.register(123, &u, "es1".to_string()).unwrap();
    assert_eq!(reg.register(123, &u, "es1".to_string()), Err(Error::Conflict));
    assert_eq!(reg.registrations().len(), 1);
}

#[test]
fn guild_release_keeps_shared_broadcasters() {
    let mut reg = NotificationRegistry::new();
    let a = user(1, "A");
    let b = user(2, "B");
    reg.register(10, &a, "sa".to_string()).unwrap();
    reg.register(10, &b, "sb".to_string()).unwrap();
    reg.register(20, &b, "sb".to_string()).unwrap();
    let gone = reg.release_guild(10);
    assert_eq!(gone, vec!["sa".to_string()]);
    assert_eq!(reg.broadcasters().len(), 1);
    assert_eq!(reg.broadcasters()[0].id, 2);
    assert_eq!(
        reg.registrations().clone(),
        vec![Registration { id: 3, guild_id: 20, broadcaster_id: 2 }]
    );
}

#[test]
fn guild_release_of_unknown_guild_changes_nothing() {
    let mut reg = NotificationRegistry::new();
    reg.register(10, &user(1, "A"), "sa".to_string()).unwrap();
    assert!(reg.release_guild(99).is_empty());
    assert_eq!(reg.registrations().len(), 1);
    assert_eq!(reg.broadcasters().len(), 1);
}

#[test]
fn release_registration_deletes_only_the_last() {
    let mut reg = NotificationRegistry::new();
    let b = user(2, "B");
    let first = reg.register(10, &b, "sb".to_string()).unwrap();
    let second = reg.register(20, &b, "sb".to_string()).unwrap();
    assert_eq!(reg.release_registration(first), Ok(None));
    assert_eq!(reg.broadcasters().len(), 1);
    assert_eq!(reg.release_registration(second), Ok(Some("sb".to_string())));
    assert!(reg.broadcasters().is_empty());
    assert!(reg.registrations().is_empty());
}

#[test]
fn release_of_unknown_registration_is_bad_request() {
    let mut reg = NotificationRegistry::new();
    reg.register(10, &user(2, "B"), "sb".to_string()).unwrap();
    assert_eq!(
        reg.release_registration(42),
        Err(Error::BadRequest("Notification not found".to_string()))
    );
    assert_eq!(reg.registrations().len(), 1);
}

#[test]
fn revocation_drops_row_and_marks_registrations_stale() {
    let mut reg = NotificationRegistry::new();
    let a = user(1, "A");
    let b = user(2, "B");
    reg.register(10, &a, "sa".to_string()).unwrap();
    reg.register(10, &b, "sb".to_string()).unwrap();
    reg.register(20, &b, "sb".to_string()).unwrap();
    reg.revoke(2);
    assert_eq!(reg.broadcasters().len(), 1);
    assert_eq!(reg.broadcasters()[0].id, 1);
    assert_eq!(
        reg.registrations().clone(),
        vec![Registration { id: 1, guild_id: 10, broadcaster_id: 1 }]
    );
    assert_eq!(
        reg.stale().clone(),
        vec![
            Registration { id: 2, guild_id: 10, broadcaster_id: 2 },
            Registration { id: 3, guild_id: 20, broadcaster_id: 2 },
        ]
    );
    assert_eq!(reg.subscription_step(2), SubscriptionStep::Create);
}

#[test]
fn registration_refreshes_broadcaster_details() {
    let mut reg = NotificationRegistry::new();
    reg.register(10, &user(2, "Old"), "sb".to_string()).unwrap();
    reg.register(20, &user(2, "New"), "sb".to_string()).unwrap();
    assert_eq!(reg.broadcasters().len(), 1);
    assert_eq!(reg.broadcasters()[0].display_name, "New");
}

#[test]
fn empty_subscription_id_is_not_reused() {
    let mut reg = NotificationRegistry::new();
    reg.register(10, &user(2, "B"), String::new()).unwrap();
    assert_eq!(reg.subscription_of(2), None);
    assert_eq!(reg.subscription_step(2), SubscriptionStep::Create);
}
