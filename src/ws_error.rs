//! Errors reported over the management WebSocket, and the reasons for which
//! it is closed.

use vstd::prelude::*;

verus! {

/// Error that a command over the management WebSocket ran into
#[derive(Debug)]
pub enum WSErrorType {
    UserNotFound(String),
    TransportConnectionFailure,
    ProducerFailure,
    ProducerNotFound,
    ConsumerFailure,
    ConsumerNotFound(String),
}

/// The stable key of an error: the name of its variant.
pub open spec fn ws_error_key(e: &WSErrorType) -> Seq<char> {
    match e {
        WSErrorType::UserNotFound(_) => "UserNotFound"@,
        WSErrorType::TransportConnectionFailure => "TransportConnectionFailure"@,
        WSErrorType::ProducerFailure => "ProducerFailure"@,
        WSErrorType::ProducerNotFound => "ProducerNotFound"@,
        WSErrorType::ConsumerFailure => "ConsumerFailure"@,
        WSErrorType::ConsumerNotFound(_) => "ConsumerNotFound"@,
    }
}

/// The sentence that explains an error.
pub open spec fn ws_error_message(e: &WSErrorType) -> Seq<char> {
    match e {
        WSErrorType::UserNotFound(id) => "User with ID "@ + id@ + " doesn't exist"@,
        WSErrorType::TransportConnectionFailure =>
            "An error occured while trying to connect transport"@,
        WSErrorType::ProducerFailure =>
            "An unknown error occured while setting up an RTC producer"@,
        WSErrorType::ProducerNotFound => "Producer doesn't exist"@,
        WSErrorType::ConsumerFailure =>
            "An unknown error occured while setting up an RTC consumer"@,
        WSErrorType::ConsumerNotFound(id) => "Consumer with ID "@ + id@ + " doesn't exist"@,
    }
}

impl WSErrorType {
    /// Stable key of the error
    pub fn key(&self) -> (r: &'static str)
        ensures
            r@ == ws_error_key(self),
    {
        match self {
            WSErrorType::UserNotFound(_) => "UserNotFound",
            WSErrorType::TransportConnectionFailure => "TransportConnectionFailure",
            WSErrorType::ProducerFailure => "ProducerFailure",
            WSErrorType::ProducerNotFound => "ProducerNotFound",
            WSErrorType::ConsumerFailure => "ConsumerFailure",
            WSErrorType::ConsumerNotFound(_) => "ConsumerNotFound",
        }
    }

    /// Sentence that explains the error
    pub fn to_string(&self) -> (r: String)
        ensures
            r@ == ws_error_message(self),
    {
        match self {
            WSErrorType::UserNotFound(id) => String::from_str("User with ID ").concat(
                id.as_str(),
            ).concat(" doesn't exist"),
            WSErrorType::TransportConnectionFailure => String::from_str(
                "An error occured while trying to connect transport",
            ),
            WSErrorType::ProducerFailure => String::from_str(
                "An unknown error occured while setting up an RTC producer",
            ),
            WSErrorType::ProducerNotFound => String::from_str("Producer doesn't exist"),
            WSErrorType::ConsumerFailure => String::from_str(
                "An unknown error occured while setting up an RTC consumer",
            ),
            WSErrorType::ConsumerNotFound(id) => String::from_str("Consumer with ID ").concat(
                id.as_str(),
            ).concat(" doesn't exist"),
        }
    }
}

/// Error reply to a command over the management WebSocket
pub struct WSError {
    /// ID of the command, if it had one
    pub id: Option<u64>,
    /// Type of the command
    pub command_type: String,
    /// Key of the error
    pub error: &'static str,
    /// Sentence that explains the error
    pub message: String,
}

impl WSError {
    /// The error reply to the command `id` of type `command_type`
    pub fn new(id: Option<u64>, command_type: &str, error: WSErrorType) -> (r: WSError)
        ensures
            r.id == id,
            r.command_type@ == command_type@,
            r.error@ == ws_error_key(&error),
            r.message@ == ws_error_message(&error),
    {
        WSError {
            id,
            command_type: String::from_str(command_type),
            message: error.to_string(),
            error: error.key(),
        }
    }
}

/// Reason for closing the management WebSocket
#[derive(Clone, Copy, Debug, PartialEq, Eq, Structural)]
pub enum WSCloseType {
    /// Sent when the received data is unparseable
    InvalidData,
    /// Sent when a client tries to send a command in the wrong state
    InvalidState,
    Unauthorized,
    Kicked,
    RoomClosed,
    ServerError,
}

/// The close code that a reason is sent with.
pub open spec fn close_code(c: WSCloseType) -> u16 {
    match c {
        WSCloseType::InvalidData => 1003,
        WSCloseType::InvalidState => 1002,
        WSCloseType::Unauthorized => 4001,
        WSCloseType::Kicked => 4003,
        WSCloseType::RoomClosed => 4004,
        WSCloseType::ServerError => 1011,
    }
}

/// The sentence that a close is sent with.
pub open spec fn close_reason(c: WSCloseType) -> Seq<char> {
    match c {
        WSCloseType::InvalidData => "Unable to parse data"@,
        WSCloseType::InvalidState => "Command executed in invalid state"@,
        WSCloseType::Unauthorized => "Invalid token"@,
        WSCloseType::Kicked => "You have been kicked!"@,
        WSCloseType::RoomClosed => "Room has been closed"@,
        WSCloseType::ServerError => "Internal Server Error"@,
    }
}

impl WSCloseType {
    /// Close code of the reason
    pub fn code(&self) -> (r: u16)
        ensures
            r == close_code(*self),
    {
        match self {
            WSCloseType::InvalidData => 1003,
            WSCloseType::InvalidState => 1002,
            WSCloseType::Unauthorized => 4001,
            WSCloseType::Kicked => 4003,
            WSCloseType::RoomClosed => 4004,
            WSCloseType::ServerError => 1011,
        }
    }

    /// Sentence of the reason
    pub fn to_string(&self) -> (r: String)
        ensures
            r@ == close_reason(*self),
    {
        let s = match self {
            WSCloseType::InvalidData => "Unable to parse data",
            WSCloseType::InvalidState => "Command executed in invalid state",
            WSCloseType::Unauthorized => "Invalid token",
            WSCloseType::Kicked => "You have been kicked!",
            WSCloseType::RoomClosed => "Room has been closed",
            WSCloseType::ServerError => "Internal Server Error",
        };
        String::from_str(s)
    }
}

} // verus!
