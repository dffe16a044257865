use stump::book_club_invitation::{invitation_id_before_save, ActiveValue};
use uuid::Uuid;

fn random_bytes() -> [u8; 16] {
    *Uuid::new_v4().as_bytes()
}

#[test]
fn test_active_model() {
    let id = Uuid::parse_str("6f6d2e63-1532-4f85-9d3c-c19f9f915b38").unwrap();
    let saved = invitation_id_before_save(ActiveValue::Changed(id), true, random_bytes());
    match saved {
        ActiveValue::Changed(v) => {
            assert!(!v.is_nil());
            assert_eq!(v, id);
        }
        _ => panic!("the id must stay set"),
    }
}

#[test]
fn insert_without_id_gets_fresh_id() {
    match invitation_id_before_save(ActiveValue::NotSet, true, random_bytes()) {
        ActiveValue::Changed(v) => {
            assert!(!v.is_nil());
            assert_eq!(v.get_version_num(), 4);
            assert_eq!(v.get_variant(), uuid::Variant::RFC4122);
        }
        _ => panic!("an id must be assigned"),
    }
}

#[test]
fn fresh_id_is_the_bytes_with_version_and_variant_set() {
    match invitation_id_before_save(ActiveValue::NotSet, true, [0u8; 16]) {
        ActiveValue::Changed(v) => {
            assert_eq!(v.as_u128(), 0x0000_0000_0000_4000_8000_0000_0000_0000);
            assert_eq!(v.to_string(), "00000000-0000-4000-8000-000000000000");
        }
        _ => panic!("an id must be assigned"),
    }
    match invitation_id_before_save(ActiveValue::NotSet, true, [0xffu8; 16]) {
        ActiveValue::Changed(v) => {
            assert_eq!(v.to_string(), "ffffffff-ffff-4fff-bfff-ffffffffffff");
        }
        _ => panic!("an id must be assigned"),
    }
    let bytes = [0x12, 0x34, 0x56, 0x78, 0x9a, 0xbc, 0xde, 0xf0, 0x12, 0x34, 0x56, 0x78, 0x9a, 0xbc, 0xde, 0xf0];
    match invitation_id_before_save(ActiveValue::NotSet, true, bytes) {
        ActiveValue::Changed(v) => {
            assert_eq!(v.to_string(), "12345678-9abc-4ef0-9234-56789abcdef0");
        }
        _ => panic!("an id must be assigned"),
    }
}

#[test]
fn update_without_id_stays_unset() {
    assert!(matches!(
        invitation_id_before_save(ActiveValue::NotSet, false, random_bytes()),
        ActiveValue::NotSet
    ));
    let id = Uuid::nil();
    assert!(matches!(
        invitation_id_before_save(ActiveValue::Unchanged(id), true, random_bytes()),
        ActiveValue::Unchanged(v) if v == id
    ));
}
