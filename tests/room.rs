use vortex::packets::{MediaType, ServerError};
use vortex::room::{Room, RoomEvent};

fn room_with(users: &[&str]) -> Room<u32> {
    let mut room: Room<u32> = Room::new("r1".to_string());
    for u in users {
        room.join_user(u.to_string()).unwrap();
    }
    room.take_events();
    room
}

fn event_names(events: &[RoomEvent]) -> Vec<String> {
    events
        .iter()
        .map(|e| match e {
            RoomEvent::CreateTrack(t) => format!("create {} {} {}", t.id, t.user_id, t.media_type.as_str()),
            RoomEvent::RemoveTrack { removed_tracks } => format!("remove {}", removed_tracks.join(",")),
            RoomEvent::UserJoin { user_id } => format!("join {user_id}"),
            RoomEvent::UserLeft { user_id } => format!("left {user_id}"),
        })
        .collect()
}

#[test]
fn new_room_is_empty() {
    let room: Room<u32> = Room::new("r1".to_string());
    assert_eq!(room.id(), "r1");
    assert!(room.get_user_ids().is_empty());
    assert!(room.get_available_tracks().is_empty());
    assert!(!room.in_room("u1"));
}

#[test]
fn join_publishes_user_join() {
    let mut room: Room<u32> = Room::new("r1".to_string());
    assert_eq!(room.join_user("u1".to_string()), Ok(()));
    assert_eq!(room.join_user("u2".to_string()), Ok(()));
    assert!(room.in_room("u1"));
    assert_eq!(room.get_user_ids(), vec!["u1".to_string(), "u2".to_string()]);
    assert_eq!(event_names(&room.take_events()), vec!["join u1", "join u2"]);
    assert!(room.take_events().is_empty());
}

#[test]
fn join_twice_is_refused() {
    let mut room = room_with(&["u1"]);
    assert_eq!(room.join_user("u1".to_string()), Err(ServerError::AlreadyConnected));
    assert_eq!(room.get_user_ids(), vec!["u1".to_string()]);
    assert!(room.take_events().is_empty());
}

#[test]
fn add_track_records_and_announces() {
    let mut room = room_with(&["u1"]);
    assert_eq!(room.add_track("u1".to_string(), MediaType::Audio, "a-1".to_string(), 7), Ok(()));
    assert_eq!(room.get_track("a-1"), Some(&7));
    assert_eq!(
        room.track_map("u1").unwrap().get(MediaType::Audio).map(|s| s.as_str()),
        Some("a-1")
    );
    let tracks = room.get_available_tracks();
    assert_eq!(tracks.len(), 1);
    assert_eq!(tracks[0].id, "a-1");
    assert_eq!(tracks[0].user_id, "u1");
    assert_eq!(tracks[0].media_type, MediaType::Audio);
    assert_eq!(event_names(&room.take_events()), vec!["create a-1 u1 Audio"]);
}

#[test]
fn add_track_of_absent_user_is_refused() {
    let mut room = room_with(&["u1"]);
    assert_eq!(
        room.add_track("ghost".to_string(), MediaType::Video, "v-1".to_string(), 1),
        Err(ServerError::NotConnected)
    );
    assert_eq!(room.get_track("v-1"), None);
    assert!(room.take_events().is_empty());
}

#[test]
fn add_track_with_same_id_replaces() {
    let mut room = room_with(&["u1"]);
    room.add_track("u1".to_string(), MediaType::Video, "v-1".to_string(), 1).unwrap();
    room.add_track("u1".to_string(), MediaType::Video, "v-1".to_string(), 2).unwrap();
    assert_eq!(room.get_track("v-1"), Some(&2));
    assert_eq!(room.get_available_tracks().len(), 1);
}

#[test]
fn available_tracks_in_user_then_slot_order() {
    let mut room = room_with(&["u1", "u2"]);
    room.add_track("u2".to_string(), MediaType::ScreenVideo, "sv".to_string(), 1).unwrap();
    room.add_track("u1".to_string(), MediaType::Video, "v".to_string(), 2).unwrap();
    room.add_track("u1".to_string(), MediaType::Audio, "a".to_string(), 3).unwrap();
    let ids: Vec<(String, String)> = room
        .get_available_tracks()
        .into_iter()
        .map(|t| (t.user_id, t.id))
        .collect();
    assert_eq!(
        ids,
        vec![
            ("u1".to_string(), "a".to_string()),
            ("u1".to_string(), "v".to_string()),
            ("u2".to_string(), "sv".to_string()),
        ]
    );
}

#[test]
fn remove_user_closes_tracks_and_announces() {
    let mut room = room_with(&["u1", "u2"]);
    room.add_track("u1".to_string(), MediaType::Audio, "a-1".to_string(), 1).unwrap();
    room.add_track("u1".to_string(), MediaType::Video, "v-1".to_string(), 2).unwrap();
    room.add_track("u2".to_string(), MediaType::Audio, "a-2".to_string(), 3).unwrap();
    room.take_events();
    room.remove_user("u1");
    assert!(!room.in_room("u1"));
    assert_eq!(room.get_track("a-1"), None);
    assert_eq!(room.get_track("v-1"), None);
    assert_eq!(room.get_track("a-2"), Some(&3));
    assert!(room.get_available_tracks().iter().all(|t| t.user_id != "u1"));
    assert_eq!(event_names(&room.take_events()), vec!["remove a-1,v-1", "left u1"]);
}

#[test]
fn remove_user_twice_changes_nothing_more() {
    let mut room = room_with(&["u1", "u2"]);
    room.add_track("u1".to_string(), MediaType::Audio, "a-1".to_string(), 1).unwrap();
    room.remove_user("u1");
    let events = event_names(&room.take_events());
    room.remove_user("u1");
    assert!(room.take_events().is_empty());
    assert_eq!(room.get_user_ids(), vec!["u2".to_string()]);
    assert_eq!(events, vec!["create a-1 u1 Audio", "remove a-1", "left u1"]);
}

#[test]
fn remove_user_without_tracks_publishes_empty_removal() {
    let mut room = room_with(&["u1"]);
    room.remove_user("u1");
    assert_eq!(event_names(&room.take_events()), vec!["remove ", "left u1"]);
}

#[test]
fn remove_track_publishes_removal() {
    let mut room = room_with(&["u1"]);
    room.add_track("u1".to_string(), MediaType::Audio, "a-1".to_string(), 1).unwrap();
    room.take_events();
    room.remove_track("a-1".to_string());
    assert_eq!(room.get_track("a-1"), None);
    assert_eq!(event_names(&room.take_events()), vec!["remove a-1"]);
}

#[test]
fn register_track_slots() {
    let mut room = room_with(&["u1"]);
    assert_eq!(room.register_track("u1", "a-1".to_string(), MediaType::Audio), Ok(()));
    assert_eq!(room.register_track("u1", "a-1".to_string(), MediaType::Audio), Ok(()));
    assert_eq!(
        room.register_track("u1", "a-2".to_string(), MediaType::Audio),
        Err(ServerError::MediaTypeSatisfied)
    );
    assert_eq!(
        room.track_map("u1").unwrap().get(MediaType::Audio).map(|s| s.as_str()),
        Some("a-1")
    );
    assert_eq!(
        room.register_track("nobody", "a-3".to_string(), MediaType::Audio),
        Err(ServerError::NotConnected)
    );
}

#[test]
fn unregister_track_empties_slots() {
    let mut room = room_with(&["u1"]);
    room.register_track("u1", "x".to_string(), MediaType::Audio).unwrap();
    room.register_track("u1", "x".to_string(), MediaType::Video).unwrap();
    room.register_track("u1", "y".to_string(), MediaType::ScreenAudio).unwrap();
    room.unregister_track("u1", &"x".to_string());
    let map = room.track_map("u1").unwrap();
    assert_eq!(map.get(MediaType::Audio), None);
    assert_eq!(map.get(MediaType::Video), None);
    assert_eq!(map.get(MediaType::ScreenAudio).map(|s| s.as_str()), Some("y"));
}
