use vortex::negotiation::SdpStep;
use vortex::packets::{
    ICECandidate, MediaType, Negotiation, PacketC2S, PacketS2C, SdpType, ServerError,
    SessionDescription,
};
use vortex::peer::Peer;
use vortex::room::{Room, RoomEvent};
use vortex::session::{
    accept_packet, authenticated, clean_up, connect_request, handle_message, on_room_event,
    open_session, Command, UserCapabilities, UserInformation,
};

fn request_audio(id: &str) -> PacketC2S {
    PacketC2S::RequestTrack {
        audio: Some(id.to_string()),
        video: None,
        screen_audio: None,
        screen_video: None,
    }
}

/// Deliver the room's pending events to a peer and collect what it sends.
fn deliver(room: &mut Room<u32>, peer: &mut Peer<u32>) -> Vec<PacketS2C> {
    let mut out = vec![];
    for event in room.take_events() {
        let outcome = on_room_event(peer, event);
        if let Some(p) = outcome.reply {
            out.push(p);
        }
    }
    out
}

#[test]
fn join_and_leave_are_broadcast() {
    let mut room: Room<u32> = Room::new("r1".to_string());
    let mut p1: Peer<u32> = open_session(&mut room, "u1".to_string()).unwrap();
    let seen = deliver(&mut room, &mut p1);
    // the joining client sees its own join too
    assert!(matches!(&seen[..], [PacketS2C::UserJoin { user_id }] if user_id == "u1"));
    let mut p2: Peer<u32> = open_session(&mut room, "u2".to_string()).unwrap();
    match accept_packet(&room) {
        PacketS2C::Accept { available_tracks, user_ids } => {
            assert!(available_tracks.is_empty());
            assert_eq!(user_ids, vec!["u1".to_string(), "u2".to_string()]);
        }
        other => panic!("unexpected {other:?}"),
    }
    let seen = deliver(&mut room, &mut p1);
    assert!(matches!(&seen[..], [PacketS2C::UserJoin { user_id }] if user_id == "u2"));
    clean_up(&mut room, &mut p2);
    let seen = deliver(&mut room, &mut p1);
    assert_eq!(seen.len(), 2);
    assert!(matches!(&seen[0], PacketS2C::Remove { removed_tracks } if removed_tracks.is_empty()));
    assert!(matches!(&seen[1], PacketS2C::UserLeft { user_id } if user_id == "u2"));
}

#[test]
fn track_request_then_publish_announces_to_others() {
    let mut room: Room<u32> = Room::new("r1".to_string());
    let mut p1: Peer<u32> = open_session(&mut room, "u1".to_string()).unwrap();
    let mut p2: Peer<u32> = open_session(&mut room, "u2".to_string()).unwrap();
    room.take_events();
    match handle_message(&mut p1, &mut room, request_audio("a-1")) {
        Ok(Command::Send(PacketS2C::Continue { tracks })) => assert_eq!(tracks, vec!["a-1".to_string()]),
        other => panic!("unexpected {other:?}"),
    }
    // the client's audio stream arrives
    assert_eq!(p1.claim_incoming_track(&mut room, "a-1".to_string()), Some(MediaType::Audio));
    room.add_track("u1".to_string(), MediaType::Audio, "a-1".to_string(), 11).unwrap();
    let mut events = room.take_events();
    assert_eq!(events.len(), 1);
    let event = events.remove(0);
    let to_self = on_room_event(&mut p1, clone_event(&event));
    assert!(to_self.reply.is_none());
    let to_other = on_room_event(&mut p2, event);
    match to_other.reply {
        Some(PacketS2C::Announce { track }) => {
            assert_eq!(track.id, "a-1");
            assert_eq!(track.user_id, "u1");
            assert_eq!(track.media_type, MediaType::Audio);
        }
        other => panic!("unexpected {other:?}"),
    }
}

fn clone_event(e: &RoomEvent) -> RoomEvent {
    match e {
        RoomEvent::CreateTrack(t) => RoomEvent::CreateTrack(t.clone()),
        RoomEvent::RemoveTrack { removed_tracks } => RoomEvent::RemoveTrack { removed_tracks: removed_tracks.clone() },
        RoomEvent::UserJoin { user_id } => RoomEvent::UserJoin { user_id: user_id.clone() },
        RoomEvent::UserLeft { user_id } => RoomEvent::UserLeft { user_id: user_id.clone() },
    }
}

#[test]
fn second_audio_request_is_refused() {
    let mut room: Room<u32> = Room::new("r1".to_string());
    let mut p1: Peer<u32> = open_session(&mut room, "u1".to_string()).unwrap();
    assert!(handle_message(&mut p1, &mut room, request_audio("a-1")).is_ok());
    let second = handle_message(&mut p1, &mut room, request_audio("a-2"));
    assert_eq!(second.as_ref().err(), Some(&ServerError::MediaTypeSatisfied));
    match second.unwrap_err().to_packet() {
        PacketS2C::Error { error } => assert_eq!(error, "MediaTypeSatisfied"),
        other => panic!("unexpected {other:?}"),
    }
    // the session goes on: a request for another slot still works
    let video = PacketC2S::RequestTrack {
        audio: None,
        video: Some("v-1".to_string()),
        screen_audio: None,
        screen_video: None,
    };
    assert!(handle_message(&mut p1, &mut room, video).is_ok());
}

#[test]
fn request_of_every_slot_in_order() {
    let mut room: Room<u32> = Room::new("r1".to_string());
    let mut p1: Peer<u32> = open_session(&mut room, "u1".to_string()).unwrap();
    let all = PacketC2S::RequestTrack {
        audio: Some("a".to_string()),
        video: Some("v".to_string()),
        screen_audio: Some("sa".to_string()),
        screen_video: Some("sv".to_string()),
    };
    match handle_message(&mut p1, &mut room, all) {
        Ok(Command::Send(PacketS2C::Continue { tracks })) => {
            assert_eq!(tracks, vec!["a", "v", "sa", "sv"])
        }
        other => panic!("unexpected {other:?}"),
    }
    let map = room.track_map("u1").unwrap();
    assert_eq!(map.get(MediaType::ScreenVideo).map(|s| s.as_str()), Some("sv"));
}

#[test]
fn request_stops_at_first_refusal() {
    let mut room: Room<u32> = Room::new("r1".to_string());
    let mut p1: Peer<u32> = open_session(&mut room, "u1".to_string()).unwrap();
    handle_message(&mut p1, &mut room, request_audio("a-1")).unwrap();
    let mixed = PacketC2S::RequestTrack {
        audio: Some("a-2".to_string()),
        video: Some("v-1".to_string()),
        screen_audio: None,
        screen_video: None,
    };
    assert_eq!(
        handle_message(&mut p1, &mut room, mixed).err(),
        Some(ServerError::MediaTypeSatisfied)
    );
    assert_eq!(room.track_map("u1").unwrap().get(MediaType::Video), None);
}

#[test]
fn removal_is_passed_on_and_forwarder_closed() {
    let mut room: Room<u32> = Room::new("r1".to_string());
    let mut p1: Peer<u32> = open_session(&mut room, "u1".to_string()).unwrap();
    let mut p2: Peer<u32> = open_session(&mut room, "u2".to_string()).unwrap();
    handle_message(&mut p1, &mut room, request_audio("a-1")).unwrap();
    room.add_track("u1".to_string(), MediaType::Audio, "a-1".to_string(), 5).unwrap();
    room.take_events();
    // u2 consumes it
    let continue_packet = PacketC2S::Continue { tracks: vec!["a-1".to_string()] };
    match handle_message(&mut p2, &mut room, continue_packet) {
        Ok(Command::Attach(ids)) => assert_eq!(ids, vec!["a-1".to_string()]),
        other => panic!("unexpected {other:?}"),
    }
    assert_eq!(p2.add_track("a-1".to_string(), 500), None);
    assert!(p2.is_forwarding("a-1"));
    // u1 withdraws it
    let remove = PacketC2S::Remove { removed_tracks: vec!["a-1".to_string()] };
    assert!(matches!(handle_message(&mut p1, &mut room, remove), Ok(Command::Nothing)));
    let events = room.take_events();
    assert_eq!(events.len(), 1);
    let outcome = on_room_event(&mut p2, events.into_iter().next().unwrap());
    assert_eq!(outcome.closed, vec![500]);
    assert!(!p2.is_forwarding("a-1"));
    assert!(matches!(outcome.reply, Some(PacketS2C::Remove { removed_tracks }) if removed_tracks == vec!["a-1".to_string()]));
    assert!(room.get_available_tracks().iter().all(|t| t.id != "a-1"));
    assert_eq!(room.track_map("u1").unwrap().get(MediaType::Audio), None);
}

#[test]
fn continue_with_unknown_track_is_refused() {
    let mut room: Room<u32> = Room::new("r1".to_string());
    let mut p1: Peer<u32> = open_session(&mut room, "u1".to_string()).unwrap();
    let packet = PacketC2S::Continue { tracks: vec!["missing".to_string()] };
    assert_eq!(
        handle_message(&mut p1, &mut room, packet).err(),
        Some(ServerError::TrackNotFound)
    );
}

#[test]
fn connect_after_authentication_is_refused() {
    let mut room: Room<u32> = Room::new("r1".to_string());
    let mut p1: Peer<u32> = open_session(&mut room, "u1".to_string()).unwrap();
    let packet = PacketC2S::Connect { room_id: "r1".to_string(), token: "t".to_string() };
    assert_eq!(
        handle_message(&mut p1, &mut room, packet).err(),
        Some(ServerError::AlreadyConnected)
    );
}

#[test]
fn same_user_cannot_open_two_sessions() {
    let mut room: Room<u32> = Room::new("r1".to_string());
    let _p1: Peer<u32> = open_session(&mut room, "u1".to_string()).unwrap();
    let again: Result<Peer<u32>, ServerError> = open_session(&mut room, "u1".to_string());
    assert_eq!(again.err(), Some(ServerError::AlreadyConnected));
}

#[test]
fn negotiation_packets_reach_the_driver() {
    let mut room: Room<u32> = Room::new("r1".to_string());
    let mut p1: Peer<u32> = open_session(&mut room, "u1".to_string()).unwrap();
    let sdp = PacketC2S::Negotiation(Negotiation::SDP {
        description: SessionDescription { sdp_type: SdpType::Offer, sdp: "v=0".to_string() },
        media_type_buffer: Some(vec![MediaType::Video, MediaType::Audio]),
    });
    match handle_message(&mut p1, &mut room, sdp) {
        Ok(Command::Negotiate(d)) => {
            assert_eq!(d.sdp_type, SdpType::Offer);
            assert_eq!(d.sdp, "v=0");
        }
        other => panic!("unexpected {other:?}"),
    }
    // tracks that were not requested take the queued media types in order
    assert_eq!(p1.claim_incoming_track(&mut room, "t-1".to_string()), Some(MediaType::Video));
    assert_eq!(p1.claim_incoming_track(&mut room, "t-2".to_string()), Some(MediaType::Audio));
    assert_eq!(p1.claim_incoming_track(&mut room, "t-3".to_string()), None);
    // a track already known keeps its slot
    assert_eq!(p1.claim_incoming_track(&mut room, "t-1".to_string()), Some(MediaType::Video));
    let ice = PacketC2S::Negotiation(Negotiation::ICE {
        candidate: ICECandidate {
            candidate: "candidate:1".to_string(),
            sdp_mid: "0".to_string(),
            sdp_mline_index: 0,
            username_fragment: "uf".to_string(),
        },
    });
    match handle_message(&mut p1, &mut room, ice) {
        Ok(Command::AddCandidate(c)) => {
            assert_eq!(c.candidate, "candidate:1");
            assert_eq!(c.username_fragment, "uf");
        }
        other => panic!("unexpected {other:?}"),
    }
}

#[test]
fn colliding_offer_is_dropped_by_the_peer() {
    let mut room: Room<u32> = Room::new("r1".to_string());
    let mut p1: Peer<u32> = open_session(&mut room, "u1".to_string()).unwrap();
    let mut state = p1.negotiation_state();
    state.begin_offer();
    p1.set_negotiation_state(state);
    assert_eq!(p1.consume_description(SdpType::Offer, false), SdpStep::Ignore);
    assert!(p1.negotiation_state().ignore_offer);
    let mut state = p1.negotiation_state();
    state.end_offer();
    p1.set_negotiation_state(state);
    assert_eq!(
        p1.consume_description(SdpType::Answer, false),
        SdpStep::Apply { send_answer: false }
    );
}

#[test]
fn unauthenticated_client_is_refused() {
    let packet = request_audio("x");
    assert!(connect_request(packet).is_none());
    assert_eq!(authenticated(None).err(), Some(ServerError::FailedToAuthenticate));
    match ServerError::FailedToAuthenticate.to_packet() {
        PacketS2C::Error { error } => assert_eq!(error, "FailedToAuthenticate"),
        other => panic!("unexpected {other:?}"),
    }
}

#[test]
fn connect_packet_is_taken_apart() {
    let packet = PacketC2S::Connect { room_id: "r1".to_string(), token: "tok".to_string() };
    assert_eq!(connect_request(packet), Some(("r1".to_string(), "tok".to_string())));
    let user = UserInformation { id: "u1".to_string(), capabilities: UserCapabilities::none() };
    assert_eq!(authenticated(Some(user)).unwrap().id, "u1");
}

#[test]
fn clean_up_twice_equals_once() {
    let mut room: Room<u32> = Room::new("r1".to_string());
    let mut p1: Peer<u32> = open_session(&mut room, "u1".to_string()).unwrap();
    let _p2: Peer<u32> = open_session(&mut room, "u2".to_string()).unwrap();
    room.add_track("u2".to_string(), MediaType::Audio, "a-2".to_string(), 2).unwrap();
    p1.add_track("a-2".to_string(), 20);
    let closed = clean_up(&mut room, &mut p1);
    assert_eq!(closed.len(), 1);
    assert_eq!(closed[0].id, "a-2");
    let users = room.get_user_ids();
    let tracks = room.get_available_tracks().len();
    room.take_events();
    let closed_again = clean_up(&mut room, &mut p1);
    assert!(closed_again.is_empty());
    assert_eq!(room.get_user_ids(), users);
    assert_eq!(room.get_available_tracks().len(), tracks);
    assert!(room.take_events().is_empty());
    assert!(!p1.is_forwarding("a-2"));
}
