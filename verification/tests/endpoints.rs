use roomauth::api::{handle_create_room, handle_me};
use roomauth::models::CreateRoomRequest;
use roomauth::store::Store;
use roomauth::token::KeySet;

const AUD: &str = "my-project";
const ISS_PREFIX: &str = "https://issuer.example/";
const SECRET: &[u8] = b"endpoint-secret";
const NOW: u64 = 1_700_000_000;

fn bearer(payload: &str, secret: &[u8]) -> String {
    let mut header = jsonwebtoken::Header::new(jsonwebtoken::Algorithm::HS256);
    header.kid = Some("k1".to_string());
    let claims: serde_json::Value = serde_json::from_str(payload).unwrap();
    let token =
        jsonwebtoken::encode(&header, &claims, &jsonwebtoken::EncodingKey::from_secret(secret))
            .unwrap();
    format!("Bearer {}", token)
}

fn keyset() -> KeySet {
    let mut ks = KeySet::new();
    ks.add_key("k1".to_string(), SECRET.to_vec());
    ks
}

fn payload(subject: &str, exp: u64) -> String {
    format!(
        "{{\"sub\":\"{}\",\"aud\":\"{}\",\"iss\":\"{}{}\",\"exp\":{},\"iat\":{},\
         \"email\":\"u@example.com\"}}",
        subject, AUD, ISS_PREFIX, AUD, exp, NOW
    )
}

#[test]
fn me_returns_subject_and_email() {
    let header = bearer(&payload("ext-abc123", NOW + 3600), SECRET);
    let (subject, email) = handle_me(Some(&header), AUD, ISS_PREFIX, &keyset(), NOW).unwrap();
    assert_eq!(subject, "ext-abc123");
    assert_eq!(email, Some("u@example.com".to_string()));
}

#[test]
fn me_rejects_bad_token_with_401() {
    let r = handle_me(Some("Bearer junk"), AUD, ISS_PREFIX, &keyset(), NOW);
    assert_eq!(r.err().unwrap(), 401);
}

#[test]
fn create_room_end_to_end_with_generated_slug() {
    let mut store = Store::new();
    let header = bearer(&payload("ext-abc123", NOW + 3600), SECRET);
    let request = CreateRoomRequest { name: "Test Room".to_string(), slug: None };
    let room = handle_create_room(
        &mut store,
        Some(&header),
        AUD,
        ISS_PREFIX,
        &keyset(),
        &request,
        NOW,
    )
    .unwrap();
    assert_eq!(room.name, "Test Room");
    assert_eq!(room.slug.chars().count(), 8);
    assert!(room.slug.chars().all(|c| c.is_ascii_lowercase() || c.is_ascii_digit()));
    assert_eq!(store.users.len(), 1);
    assert_eq!(store.users[0].external_subject_id, "ext-abc123");
    assert_eq!(room.owner_id, store.users[0].id);
    assert_eq!(store.rooms.len(), 1);
    assert_eq!(store.rooms[0].owner_id, store.users[0].id);
}

#[test]
fn create_room_with_expired_token_writes_nothing() {
    let mut store = Store::new();
    let header = bearer(&payload("ext-abc123", NOW - 1), SECRET);
    let request = CreateRoomRequest { name: "Test Room".to_string(), slug: None };
    let r = handle_create_room(
        &mut store,
        Some(&header),
        AUD,
        ISS_PREFIX,
        &keyset(),
        &request,
        NOW,
    );
    assert_eq!(r.err().unwrap(), 401);
    assert_eq!(store.users.len(), 0);
    assert_eq!(store.rooms.len(), 0);
}

#[test]
fn create_room_with_requested_slug_and_conflict_statuses() {
    let mut store = Store::new();
    let header = bearer(&payload("ext-abc123", NOW + 3600), SECRET);
    let ks = keyset();
    let request = CreateRoomRequest {
        name: "Test Room".to_string(),
        slug: Some("wanted-slug".to_string()),
    };
    let room =
        handle_create_room(&mut store, Some(&header), AUD, ISS_PREFIX, &ks, &request, NOW)
            .unwrap();
    assert_eq!(room.slug, "wanted-slug");
    let again = CreateRoomRequest {
        name: "Other Room".to_string(),
        slug: Some("wanted-slug".to_string()),
    };
    let r = handle_create_room(&mut store, Some(&header), AUD, ISS_PREFIX, &ks, &again, NOW);
    assert_eq!(r.err().unwrap(), 409);
    assert_eq!(store.rooms.len(), 1);
    let bad = CreateRoomRequest {
        name: "Bad Room".to_string(),
        slug: Some("NOT VALID".to_string()),
    };
    let r2 = handle_create_room(&mut store, Some(&header), AUD, ISS_PREFIX, &ks, &bad, NOW);
    assert_eq!(r2.err().unwrap(), 400);
    assert_eq!(store.rooms.len(), 1);
}

#[test]
fn repeated_logins_reuse_the_same_user_row() {
    let mut store = Store::new();
    let header = bearer(&payload("ext-abc123", NOW + 3600), SECRET);
    let ks = keyset();
    let r1 = CreateRoomRequest { name: "One".to_string(), slug: Some("one".to_string()) };
    let r2 = CreateRoomRequest { name: "Two".to_string(), slug: Some("two".to_string()) };
    let room1 = handle_create_room(&mut store, Some(&header), AUD, ISS_PREFIX, &ks, &r1, NOW)
        .unwrap();
    let room2 = handle_create_room(&mut store, Some(&header), AUD, ISS_PREFIX, &ks, &r2, NOW)
        .unwrap();
    assert_eq!(store.users.len(), 1);
    assert_eq!(room1.owner_id, room2.owner_id);
    assert_ne!(room1.id, room2.id);
}
