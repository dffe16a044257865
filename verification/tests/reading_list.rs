use chrono::{DateTime, Duration, Utc};
use stump::reading_list::{EntityVisibility, ReadingListInput, Timestamp};
use uuid::Uuid;

fn is_close_to_now(time: DateTime<Utc>) -> bool {
    let now = Utc::now();
    let duration = time.signed_duration_since(now);
    duration.abs() < Duration::minutes(1)
}

fn updated_at(secs: i64, nanos: u32) -> DateTime<Utc> {
    DateTime::from_timestamp(secs, nanos).unwrap()
}

fn now() -> Timestamp {
    let now = Utc::now();
    Timestamp { secs: now.timestamp(), nanos: now.timestamp_subsec_nanos() }
}

#[test]
fn test_readinglistinput_into_activemodel_default() {
    let input = ReadingListInput {
        id: Uuid::new_v4(),
        name: "Some Name".to_string(),
        visibility: None,
        media_ids: vec![],
    };

    let user_id = Uuid::new_v4();
    let model = input.clone().into_active_model(user_id, now());

    assert_eq!(model.id, input.id);
    assert_eq!(model.name, "Some Name");
    assert!(is_close_to_now(updated_at(model.updated_at.secs, model.updated_at.nanos)));
    assert_eq!(model.visibility, "PRIVATE");
    assert_eq!(model.creating_user_id, user_id);
}

#[test]
fn test_readinglistinput_into_activemodel_with_visibility() {
    let input_id = Uuid::new_v4();
    let input = ReadingListInput {
        id: input_id,
        name: "Some Name".to_string(),
        visibility: Some(EntityVisibility::Public),
        media_ids: vec![],
    };

    let user_id = Uuid::new_v4();
    let model = input.into_active_model(user_id, now());

    assert_eq!(model.id, input_id);
    assert_eq!(model.name, "Some Name");
    assert!(is_close_to_now(updated_at(model.updated_at.secs, model.updated_at.nanos)));
    assert_eq!(model.visibility, "PUBLIC");
    assert_eq!(model.creating_user_id, user_id);
}

#[test]
fn explicit_private_visibility() {
    let input = ReadingListInput {
        id: Uuid::nil(),
        name: String::new(),
        visibility: Some(EntityVisibility::Private),
        media_ids: vec![Uuid::nil()],
    };
    assert_eq!(input.into_active_model(Uuid::nil(), now()).visibility, "PRIVATE");
    assert_eq!(EntityVisibility::default(), EntityVisibility::Private);
    assert_eq!(EntityVisibility::Public.to_uppercase_label(), "PUBLIC");
}

#[test]
fn update_time_is_the_given_time() {
    let input = ReadingListInput {
        id: Uuid::nil(),
        name: "List".to_string(),
        visibility: Some(EntityVisibility::Public),
        media_ids: vec![],
    };
    let at = Timestamp { secs: 1_700_000_000, nanos: 5 };
    let model = input.into_active_model(Uuid::nil(), at);
    assert_eq!(model.updated_at.secs, 1_700_000_000);
    assert_eq!(model.updated_at.nanos, 5);
    assert_eq!(model.visibility, "PUBLIC");
    assert_eq!(model.name, "List");
}
