use vortex::management::ProduceType;
use vortex::users::RoomUsers;
use vortex::ws_error::{WSCloseType, WSErrorType};
use vortex::ws_session::{
    command_allowed, next_phase, start_consume_check, stop_produce, translate_event, CommandKind,
    EventStep, ManagementEvent, Phase, WSEvent,
};

#[test]
fn own_events_are_skipped_and_others_sent() {
    let step = translate_event(ManagementEvent::UserJoined("me".to_string()), "me");
    assert!(matches!(step, EventStep::Skip));
    let step = translate_event(ManagementEvent::UserJoined("you".to_string()), "me");
    assert!(matches!(step, EventStep::Send(WSEvent::UserJoined { id }) if id == "you"));
    let step = translate_event(
        ManagementEvent::UserStartProduce("you".to_string(), ProduceType::Video),
        "me",
    );
    assert!(matches!(
        step,
        EventStep::Send(WSEvent::UserStartProduce { id, produce_type: ProduceType::Video }) if id == "you"
    ));
    let step = translate_event(
        ManagementEvent::UserStopProduce("me".to_string(), ProduceType::Audio),
        "me",
    );
    assert!(matches!(step, EventStep::Skip));
}

#[test]
fn own_departure_and_room_deletion_close() {
    let step = translate_event(ManagementEvent::UserLeft("me".to_string()), "me");
    assert!(matches!(step, EventStep::Close(WSCloseType::Kicked)));
    let step = translate_event(ManagementEvent::UserLeft("you".to_string()), "me");
    assert!(matches!(step, EventStep::Send(WSEvent::UserLeft { id }) if id == "you"));
    let step = translate_event(ManagementEvent::RoomDelete, "me");
    assert!(matches!(step, EventStep::Close(WSCloseType::RoomClosed)));
}

#[test]
fn phases_accept_their_commands() {
    assert_eq!(command_allowed(Phase::Authenticating, CommandKind::Authenticate), Ok(()));
    assert_eq!(
        command_allowed(Phase::Authenticating, CommandKind::RoomInfo),
        Err(WSCloseType::InvalidState)
    );
    assert_eq!(command_allowed(Phase::Initializing, CommandKind::RoomInfo), Ok(()));
    assert_eq!(command_allowed(Phase::Initializing, CommandKind::InitializeTransports), Ok(()));
    assert_eq!(
        command_allowed(Phase::Initializing, CommandKind::StartProduce),
        Err(WSCloseType::InvalidState)
    );
    assert_eq!(command_allowed(Phase::Running, CommandKind::SetConsumerPause), Ok(()));
    assert_eq!(
        command_allowed(Phase::Running, CommandKind::Authenticate),
        Err(WSCloseType::InvalidState)
    );
    assert_eq!(next_phase(Phase::Authenticating, CommandKind::Authenticate), Phase::Initializing);
    assert_eq!(next_phase(Phase::Initializing, CommandKind::RoomInfo), Phase::Initializing);
    assert_eq!(next_phase(Phase::Initializing, CommandKind::InitializeTransports), Phase::Running);
}

#[test]
fn consuming_needs_a_producer() {
    let mut users = RoomUsers::from_room();
    let token = users.new("p".to_string()).unwrap();
    users.register(&token);
    assert!(matches!(
        start_consume_check(&users, "ghost", ProduceType::Audio),
        Err(WSErrorType::UserNotFound(id)) if id == "ghost"
    ));
    assert!(matches!(
        start_consume_check(&users, "p", ProduceType::Audio),
        Err(WSErrorType::ProducerNotFound)
    ));
    users.set_producer("p", ProduceType::Audio, true).unwrap();
    assert!(start_consume_check(&users, "p", ProduceType::Audio).is_ok());
}

#[test]
fn stopping_production() {
    let mut users = RoomUsers::from_room();
    let token = users.new("p".to_string()).unwrap();
    users.register(&token);
    assert!(matches!(
        stop_produce(&mut users, "ghost", ProduceType::Audio),
        Err(WSCloseType::ServerError)
    ));
    assert!(matches!(
        stop_produce(&mut users, "p", ProduceType::Audio),
        Ok(Err(WSErrorType::ProducerNotFound))
    ));
    users.set_producer("p", ProduceType::Audio, true).unwrap();
    assert!(matches!(
        stop_produce(&mut users, "p", ProduceType::Audio),
        Ok(Ok(ManagementEvent::UserStopProduce(id, ProduceType::Audio))) if id == "p"
    ));
    assert!(!users.get("p").unwrap().get_producer(ProduceType::Audio));
}
