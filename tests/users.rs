use vortex::management::{ApiError, ProduceType};
use vortex::users::{generate_token, RoomUsers, UserEvent};

fn url_safe(s: &str) -> bool {
    s.chars().all(|c| c.is_ascii_alphanumeric() || c == '-' || c == '_' || c == '=')
}

#[test]
fn tokens_are_url_safe_base64_of_24_bytes() {
    let t = generate_token().unwrap();
    assert_eq!(t.len(), 32);
    assert!(url_safe(&t));
    let u = generate_token().unwrap();
    assert_ne!(t, u);
}

#[test]
fn user_lifecycle() {
    let mut users = RoomUsers::from_room();
    let token = users.new("alice".to_string()).unwrap();
    assert_eq!(token.len(), 32);
    let alice = users.get("alice").unwrap();
    assert!(!alice.registered());
    assert_eq!(alice.token().map(|t| t.as_str()), Some(token.as_str()));
    assert!(matches!(users.new("alice".to_string()), Err(ApiError::UserAlreadyExists(id)) if id == "alice"));
    assert_eq!(users.register("not-a-token"), None);
    assert_eq!(users.register(&token), Some("alice".to_string()));
    assert!(users.get("alice").unwrap().registered());
    assert_eq!(users.register(&token), None);
    assert_eq!(users.remove("alice"), Ok(()));
    assert_eq!(users.remove("alice"), Err(()));
    assert!(users.get("alice").is_none());
    let events: Vec<String> = users
        .take_events()
        .into_iter()
        .map(|e| match e {
            UserEvent::UserJoined(id) => format!("joined {id}"),
            UserEvent::UserLeft(id) => format!("left {id}"),
        })
        .collect();
    assert_eq!(events, vec!["joined alice", "left alice"]);
}

#[test]
fn only_registered_users_produce() {
    let mut users = RoomUsers::from_room();
    let token = users.new("bob".to_string()).unwrap();
    let infos = users.infos();
    assert_eq!(infos.len(), 1);
    assert_eq!(infos[0].0, "bob");
    assert!(!infos[0].1.audio);
    users.register(&token);
    assert!(!users.get("bob").unwrap().get_producer(ProduceType::Audio));
}

#[test]
fn producing_needs_registration() {
    let mut users = RoomUsers::from_room();
    let token = users.new("carol".to_string()).unwrap();
    assert_eq!(users.set_producer("carol", ProduceType::Audio, true), Err(()));
    assert_eq!(users.set_producer("nobody", ProduceType::Audio, true), Err(()));
    users.register(&token);
    assert_eq!(users.set_producer("carol", ProduceType::Audio, true), Ok(()));
    assert!(users.get("carol").unwrap().get_producer(ProduceType::Audio));
    assert!(users.get("carol").unwrap().into_info().audio);
}
