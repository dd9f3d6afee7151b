//! Decisions of a session on the management WebSocket: which commands each
//! phase accepts, how room events reach the client, and the checks around
//! producing and consuming. The media engine's work is the driver's.

use vstd::prelude::*;

use crate::management::ProduceType;
use crate::text::same_text;
use crate::users::{RoomUsers, RoomUsersView};
use crate::ws_error::{WSCloseType, WSErrorType};

verus! {

/// Event about a room, as the management WebSocket learns of it
#[derive(Debug, Clone)]
pub enum ManagementEvent {
    UserJoined(String),
    UserLeft(String),
    UserStartProduce(String, ProduceType),
    UserStopProduce(String, ProduceType),
    RoomDelete,
}

/// Event sent to a client of the management WebSocket
#[derive(Debug)]
pub enum WSEvent {
    UserJoined { id: String },
    UserLeft { id: String },
    UserStartProduce { id: String, produce_type: ProduceType },
    UserStopProduce { id: String, produce_type: ProduceType },
}

/// What a session does with a room event
#[derive(Debug)]
pub enum EventStep {
    /// Nothing: the event is about the client's own user
    Skip,
    /// Send this event to the client
    Send(WSEvent),
    /// Close the WebSocket for this reason
    Close(WSCloseType),
}

/// Translate a room event for the client of user `user_id`: events about the
/// client's own user are skipped, except its departure, which closes the
/// session as a kick; the deletion of the room closes it too.
pub fn translate_event(event: ManagementEvent, user_id: &str) -> (r: EventStep)
    ensures
        match event {
            ManagementEvent::UserJoined(id) => if id@ == user_id@ {
                r is Skip
            } else {
                r matches EventStep::Send(WSEvent::UserJoined { id: x }) && x@ == id@
            },
            ManagementEvent::UserLeft(id) => if id@ == user_id@ {
                r matches EventStep::Close(WSCloseType::Kicked)
            } else {
                r matches EventStep::Send(WSEvent::UserLeft { id: x }) && x@ == id@
            },
            ManagementEvent::UserStartProduce(id, t) => if id@ == user_id@ {
                r is Skip
            } else {
                r matches EventStep::Send(WSEvent::UserStartProduce { id: x, produce_type: y })
                    && x@ == id@ && y == t
            },
            ManagementEvent::UserStopProduce(id, t) => if id@ == user_id@ {
                r is Skip
            } else {
                r matches EventStep::Send(WSEvent::UserStopProduce { id: x, produce_type: y })
                    && x@ == id@ && y == t
            },
            ManagementEvent::RoomDelete => r matches EventStep::Close(WSCloseType::RoomClosed),
        },
{
    match event {
        ManagementEvent::UserJoined(id) => {
            if same_text(id.as_str(), user_id) {
                EventStep::Skip
            } else {
                EventStep::Send(WSEvent::UserJoined { id })
            }
        },
        ManagementEvent::UserLeft(id) => {
            if same_text(id.as_str(), user_id) {
                EventStep::Close(WSCloseType::Kicked)
            } else {
                EventStep::Send(WSEvent::UserLeft { id })
            }
        },
        ManagementEvent::UserStartProduce(id, produce_type) => {
            if same_text(id.as_str(), user_id) {
                EventStep::Skip
            } else {
                EventStep::Send(WSEvent::UserStartProduce { id, produce_type })
            }
        },
        ManagementEvent::UserStopProduce(id, produce_type) => {
            if same_text(id.as_str(), user_id) {
                EventStep::Skip
            } else {
                EventStep::Send(WSEvent::UserStopProduce { id, produce_type })
            }
        },
        ManagementEvent::RoomDelete => EventStep::Close(WSCloseType::RoomClosed),
    }
}

/// Where a session on the management WebSocket stands
#[derive(Debug, Clone, Copy, PartialEq, Eq, Structural)]
pub enum Phase {
    /// Waiting for the client to authenticate
    Authenticating,
    /// Waiting for the client to set up its transports
    Initializing,
    /// Taking commands
    Running,
}

/// Kind of a command on the management WebSocket
#[derive(Debug, Clone, Copy, PartialEq, Eq, Structural)]
pub enum CommandKind {
    Authenticate,
    InitializeTransports,
    ConnectTransport,
    RoomInfo,
    StartProduce,
    StopProduce,
    StartConsume,
    StopConsume,
    SetConsumerPause,
}

/// Whether a phase accepts a command.
pub open spec fn accepts(phase: Phase, kind: CommandKind) -> bool {
    match phase {
        Phase::Authenticating => kind == CommandKind::Authenticate,
        Phase::Initializing => kind == CommandKind::InitializeTransports || kind
            == CommandKind::RoomInfo,
        Phase::Running => kind != CommandKind::Authenticate && kind
            != CommandKind::InitializeTransports,
    }
}

/// Accept a command in a phase, or close the session for a command sent in
/// the wrong state.
pub fn command_allowed(phase: Phase, kind: CommandKind) -> (r: Result<(), WSCloseType>)
    ensures
        r is Ok <==> accepts(phase, kind),
        r is Err ==> r == Err::<(), WSCloseType>(WSCloseType::InvalidState),
{
    let ok = match phase {
        Phase::Authenticating => kind == CommandKind::Authenticate,
        Phase::Initializing => kind == CommandKind::InitializeTransports || kind
            == CommandKind::RoomInfo,
        Phase::Running => kind != CommandKind::Authenticate && kind
            != CommandKind::InitializeTransports,
    };
    if ok {
        Ok(())
    } else {
        Err(WSCloseType::InvalidState)
    }
}

/// The phase a session moves to once a command of this kind succeeded.
pub fn next_phase(phase: Phase, kind: CommandKind) -> (r: Phase)
    ensures
        r == (if phase == Phase::Authenticating && kind == CommandKind::Authenticate {
            Phase::Initializing
        } else if phase == Phase::Initializing && kind == CommandKind::InitializeTransports {
            Phase::Running
        } else {
            phase
        }),
{
    if phase == Phase::Authenticating && kind == CommandKind::Authenticate {
        Phase::Initializing
    } else if phase == Phase::Initializing && kind == CommandKind::InitializeTransports {
        Phase::Running
    } else {
        phase
    }
}

/// Check that user `producing_id` produces media of this type before a
/// consumer of it is set up.
pub fn start_consume_check(users: &RoomUsers, producing_id: &str, produce_type: ProduceType) -> (r:
    Result<(), WSErrorType>)
    requires
        users@.wf(),
        produce_type == ProduceType::Audio,
    ensures
        !users@.has_user(producing_id@) ==> (r matches Err(WSErrorType::UserNotFound(x)) && x@
            == producing_id@),
        users@.has_user(producing_id@) ==> (r is Ok <==> exists|i: int|
            0 <= i < users@.users.len() && users@.users[i].id == producing_id@
                && users@.users[i].audio),
        r is Err && users@.has_user(producing_id@) ==> r matches Err(
            WSErrorType::ProducerNotFound,
        ),
{
    match users.get(producing_id) {
        Some(user) => {
            if user.get_producer(produce_type) {
                Ok(())
            } else {
                proof {
                    lemma_user_audio(users@, producing_id@);
                }
                Err(WSErrorType::ProducerNotFound)
            }
        },
        None => Err(WSErrorType::UserNotFound(String::from_str(producing_id))),
    }
}

/// Users with the same id share everything.
proof fn lemma_user_audio(users: RoomUsersView, id: Seq<char>)
    requires
        users.wf(),
    ensures
        forall|i: int, j: int|
            0 <= i < users.users.len() && 0 <= j < users.users.len() && users.users[i].id == id
                && users.users[j].id == id ==> i == j,
{
}

/// Stop what user `user_id` produces of this type, and name the event that
/// announces it. A user who is not in the room closes the session with
/// `ServerError`; a user who produces nothing of this type is answered with
/// `ProducerNotFound`.
pub fn stop_produce(users: &mut RoomUsers, user_id: &str, produce_type: ProduceType) -> (r: Result<
    Result<ManagementEvent, WSErrorType>,
    WSCloseType,
>)
    requires
        old(users)@.wf(),
        produce_type == ProduceType::Audio,
    ensures
        final(users)@.wf(),
        !old(users)@.has_user(user_id@) ==> r == Err::<
            Result<ManagementEvent, WSErrorType>,
            WSCloseType,
        >(WSCloseType::ServerError) && final(users)@ == old(users)@,
        old(users)@.has_user(user_id@) ==> r is Ok,
        r matches Ok(Err(e)) ==> e is ProducerNotFound && final(users)@ == old(users)@,
        r matches Ok(Ok(ev)) ==> (ev matches ManagementEvent::UserStopProduce(x, t) && x@ == user_id@
            && t == produce_type),
        r matches Ok(Ok(_)) ==> exists|i: int|
            0 <= i < old(users)@.users.len() && old(users)@.users[i].id == user_id@ && old(
                users,
            )@.users[i].audio && (final(users)@.users == old(users)@.users.update(
                i,
                crate::users::UserView { audio: false, ..old(users)@.users[i] },
            ) || final(users)@ == old(users)@),
{
    let producing = match users.get(user_id) {
        Some(user) => user.get_producer(produce_type),
        None => return Err(WSCloseType::ServerError),
    };
    if !producing {
        return Ok(Err(WSErrorType::ProducerNotFound));
    }
    users.set_producer(user_id, produce_type, false).ok();
    Ok(Ok(ManagementEvent::UserStopProduce(String::from_str(user_id), produce_type)))
}

} // verus!
