use roomauth::errors::StorageError;
use roomauth::ids::UserId;
use roomauth::models::Claims;
use roomauth::store::Store;

fn claims_for(subject: &str, email: Option<&str>, name: Option<&str>) -> Claims {
    Claims {
        subject: subject.to_string(),
        email: email.map(|s| s.to_string()),
        display_name: name.map(|s| s.to_string()),
        avatar_url: None,
        email_verified: None,
        issued_at: 1_700_000_000,
        expires_at: 1_700_003_600,
        audience: "my-project".to_string(),
        issuer: "https://issuer.example/my-project".to_string(),
    }
}

#[test]
fn first_synchronize_inserts_one_row() {
    let mut store = Store::new();
    let c = claims_for("ext-1", Some("a@example.com"), Some("Ada"));
    let uid = store.synchronize(&c, 100).unwrap();
    assert_eq!(store.users.len(), 1);
    assert_eq!(store.users[0].id, uid);
    assert_eq!(store.users[0].external_subject_id, "ext-1");
    assert_eq!(store.users[0].email, Some("a@example.com".to_string()));
    assert_eq!(store.users[0].display_name, Some("Ada".to_string()));
    assert_eq!(store.users[0].created_at, 100);
    assert_eq!(store.users[0].updated_at, 100);
}

#[test]
fn second_synchronize_updates_profile_and_keeps_id() {
    let mut store = Store::new();
    let first = claims_for("ext-1", Some("old@example.com"), Some("Old Name"));
    let second = claims_for("ext-1", Some("new@example.com"), Some("New Name"));
    let uid1 = store.synchronize(&first, 100).unwrap();
    let uid2 = store.synchronize(&second, 200).unwrap();
    assert_eq!(uid1, uid2);
    assert_eq!(store.users.len(), 1);
    assert_eq!(store.users[0].id, uid1);
    assert_eq!(store.users[0].email, Some("new@example.com".to_string()));
    assert_eq!(store.users[0].display_name, Some("New Name".to_string()));
    assert_eq!(store.users[0].created_at, 100);
    assert_eq!(store.users[0].updated_at, 200);
}

#[test]
fn distinct_subjects_get_distinct_rows() {
    let mut store = Store::new();
    let uid1 = store.synchronize(&claims_for("ext-1", None, None), 100).unwrap();
    let uid2 = store.synchronize(&claims_for("ext-2", None, None), 100).unwrap();
    assert_ne!(uid1, uid2);
    assert_eq!(store.users.len(), 2);
}

#[test]
fn taken_id_is_a_constraint_violation() {
    let mut store = Store::new();
    let uid = store
        .synchronize_with_id(&claims_for("ext-1", None, None), UserId(42), 100)
        .unwrap();
    assert_eq!(uid, UserId(42));
    let r = store.synchronize_with_id(&claims_for("ext-2", None, None), UserId(42), 200);
    assert_eq!(r.err().unwrap(), StorageError::ConstraintViolation);
    assert_eq!(store.users.len(), 1);
}

#[test]
fn many_synchronize_calls_keep_one_row_with_last_profile() {
    let mut store = Store::new();
    let mut last_uid = None;
    for k in 0..10u64 {
        let c = claims_for("ext-1", Some(&format!("mail{}@example.com", k)), None);
        let uid = store.synchronize(&c, 100 + k).unwrap();
        if let Some(prev) = last_uid {
            assert_eq!(prev, uid);
        }
        last_uid = Some(uid);
    }
    assert_eq!(store.users.len(), 1);
    assert_eq!(store.users[0].email, Some("mail9@example.com".to_string()));
    assert_eq!(store.users[0].updated_at, 109);
}

#[test]
fn only_connection_failures_are_retryable() {
    assert!(StorageError::ConnectionFailure.is_retryable());
    assert!(!StorageError::ConstraintViolation.is_retryable());
}

#[test]
fn fresh_ids_are_time_ordered_uuids() {
    let a = UserId::fresh();
    let b = UserId::fresh();
    assert_ne!(a, b);
    assert_eq!(uuid::Uuid::from_u128(a.0).get_version_num(), 7);
    assert_eq!(uuid::Uuid::from_u128(b.0).get_version_num(), 7);
}
