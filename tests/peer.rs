use vortex::packets::MediaType;
use vortex::peer::{Peer, WriteFailure};
use vortex::room::Room;

#[test]
fn stream_name_joins_user_type_and_id() {
    let peer: Peer<u8> = Peer::new("u1".to_string());
    assert_eq!(peer.stream_name(MediaType::ScreenAudio, "t-9"), "u1:ScreenAudio:t-9");
}

#[test]
fn forwarder_replaced_for_same_track() {
    let mut peer: Peer<u8> = Peer::new("u1".to_string());
    assert_eq!(peer.add_track("a".to_string(), 1), None);
    assert_eq!(peer.add_track("b".to_string(), 2), None);
    assert_eq!(peer.add_track("a".to_string(), 3), Some(1));
    assert_eq!(peer.remove_track("a"), Some(3));
    assert_eq!(peer.remove_track("a"), None);
    assert!(peer.is_forwarding("b"));
    let rest = peer.clean_up();
    assert_eq!(rest.len(), 1);
    assert_eq!(rest[0].forwarder, 2);
    assert!(peer.clean_up().is_empty());
}

#[test]
fn only_closed_pipe_keeps_forwarding() {
    assert!(WriteFailure::ClosedPipe.keeps_forwarding());
    assert!(!WriteFailure::Other.keeps_forwarding());
}

#[test]
fn video_kinds_get_keyframe_requests() {
    assert!(MediaType::Video.is_video());
    assert!(MediaType::ScreenVideo.is_video());
    assert!(!MediaType::Audio.is_video());
    assert!(!MediaType::ScreenAudio.is_video());
}

#[test]
fn media_type_names() {
    assert_eq!(MediaType::Audio.to_string(), "Audio");
    assert_eq!(MediaType::Video.to_string(), "Video");
    assert_eq!(MediaType::ScreenAudio.to_string(), "ScreenAudio");
    assert_eq!(MediaType::ScreenVideo.to_string(), "ScreenVideo");
}

#[test]
fn peer_registers_in_its_users_map() {
    let mut room: Room<u8> = Room::new("r".to_string());
    room.join_user("u1".to_string()).unwrap();
    let peer: Peer<u8> = Peer::new("u1".to_string());
    assert_eq!(peer.register_track(&mut room, "v".to_string(), MediaType::Video), Ok(()));
    assert_eq!(room.track_map("u1").unwrap().get(MediaType::Video).map(|s| s.as_str()), Some("v"));
    peer.unregister_track(&mut room, &"v".to_string());
    assert_eq!(room.track_map("u1").unwrap().get(MediaType::Video), None);
}
