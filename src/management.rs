//! Errors and replies of the room-management surface, and the server's
//! self-description.

use vstd::prelude::*;

use crate::text::same_text;

verus! {

/// Error of the room-management surface
#[derive(Debug)]
pub enum ApiError {
    Unauthorized,
    InternalServerError,
    RoomNotFound(String),
    RoomAlreadyExists(String),
    UserNotFound(String),
    UserAlreadyExists(String),
}

/// HTTP status codes that the management surface answers with.
pub const STATUS_UNAUTHORIZED: u16 = 401;
pub const STATUS_NOT_FOUND: u16 = 404;
pub const STATUS_CONFLICT: u16 = 409;
pub const STATUS_INTERNAL_SERVER_ERROR: u16 = 500;

/// The status code of an error.
pub open spec fn api_status(e: &ApiError) -> u16 {
    match e {
        ApiError::Unauthorized => STATUS_UNAUTHORIZED,
        ApiError::InternalServerError => STATUS_INTERNAL_SERVER_ERROR,
        ApiError::RoomNotFound(_) | ApiError::UserNotFound(_) => STATUS_NOT_FOUND,
        ApiError::RoomAlreadyExists(_) | ApiError::UserAlreadyExists(_) => STATUS_CONFLICT,
    }
}

/// The stable key of an error: the name of its variant.
pub open spec fn api_key(e: &ApiError) -> Seq<char> {
    match e {
        ApiError::Unauthorized => "Unauthorized"@,
        ApiError::InternalServerError => "InternalServerError"@,
        ApiError::RoomNotFound(_) => "RoomNotFound"@,
        ApiError::RoomAlreadyExists(_) => "RoomAlreadyExists"@,
        ApiError::UserNotFound(_) => "UserNotFound"@,
        ApiError::UserAlreadyExists(_) => "UserAlreadyExists"@,
    }
}

/// The sentence that explains an error.
pub open spec fn api_message(e: &ApiError) -> Seq<char> {
    match e {
        ApiError::Unauthorized => "Invalid management token"@,
        ApiError::InternalServerError => "Internal Server Error"@,
        ApiError::RoomNotFound(id) => "Room with ID "@ + id@ + " not found"@,
        ApiError::RoomAlreadyExists(id) => "Room with ID "@ + id@ + " already exists"@,
        ApiError::UserNotFound(id) => "User with ID "@ + id@ + " not found"@,
        ApiError::UserAlreadyExists(id) => "User with ID "@ + id@ + " already exists"@,
    }
}

/// The body and status of an error reply.
pub struct ErrorReply {
    pub code: u16,
    pub error: &'static str,
    pub message: Option<String>,
}

fn about_id(before: &str, id: &String, after: &str) -> (r: String)
    ensures
        r@ == before@ + id@ + after@,
{
    String::from_str(before).concat(id.as_str()).concat(after)
}

impl ApiError {
    /// HTTP status code of the error
    pub fn code(&self) -> (r: u16)
        ensures
            r == api_status(self),
    {
        match self {
            ApiError::Unauthorized => STATUS_UNAUTHORIZED,
            ApiError::InternalServerError => STATUS_INTERNAL_SERVER_ERROR,
            ApiError::RoomNotFound(_) | ApiError::UserNotFound(_) => STATUS_NOT_FOUND,
            ApiError::RoomAlreadyExists(_) | ApiError::UserAlreadyExists(_) => STATUS_CONFLICT,
        }
    }

    /// Stable key of the error
    pub fn key(&self) -> (r: &'static str)
        ensures
            r@ == api_key(self),
    {
        match self {
            ApiError::Unauthorized => "Unauthorized",
            ApiError::InternalServerError => "InternalServerError",
            ApiError::RoomNotFound(_) => "RoomNotFound",
            ApiError::RoomAlreadyExists(_) => "RoomAlreadyExists",
            ApiError::UserNotFound(_) => "UserNotFound",
            ApiError::UserAlreadyExists(_) => "UserAlreadyExists",
        }
    }

    /// Sentence that explains the error
    pub fn to_string(&self) -> (r: String)
        ensures
            r@ == api_message(self),
    {
        match self {
            ApiError::Unauthorized => String::from_str("Invalid management token"),
            ApiError::InternalServerError => String::from_str("Internal Server Error"),
            ApiError::RoomNotFound(id) => about_id("Room with ID ", id, " not found"),
            ApiError::RoomAlreadyExists(id) => about_id("Room with ID ", id, " already exists"),
            ApiError::UserNotFound(id) => about_id("User with ID ", id, " not found"),
            ApiError::UserAlreadyExists(id) => about_id("User with ID ", id, " already exists"),
        }
    }

    /// The reply that reports the error: its status, its key, and its
    /// sentence, except for internal errors, whose details stay on the server
    pub fn reply(&self) -> (r: ErrorReply)
        ensures
            r.code == api_status(self),
            r.error@ == api_key(self),
            match self {
                ApiError::InternalServerError => r.message is None,
                _ => r.message matches Some(m) && m@ == api_message(self),
            },
    {
        let message = match self {
            ApiError::InternalServerError => None,
            _ => Some(self.to_string()),
        };
        ErrorReply { code: self.code(), error: self.key(), message }
    }
}

/// The reply to a request that matched no route.
pub fn not_found_reply() -> (r: ErrorReply)
    ensures
        r.code == STATUS_NOT_FOUND,
        r.error@ == "NotFound"@,
        r.message is None,
{
    ErrorReply { code: STATUS_NOT_FOUND, error: "NotFound", message: None }
}

/// Whether a request carries the management token: a missing header or any
/// other value is refused.
pub fn authorize(authorization: Option<&str>, manage_token: &str) -> (r: Result<(), ApiError>)
    ensures
        r is Ok <==> (authorization matches Some(a) && a@ == manage_token@),
        r is Err ==> r matches Err(ApiError::Unauthorized),
{
    match authorization {
        Some(a) => {
            if same_text(a, manage_token) {
                Ok(())
            } else {
                Err(ApiError::Unauthorized)
            }
        },
        None => Err(ApiError::Unauthorized),
    }
}

/// Type of media a user produces, as the management surface names it
#[derive(Clone, Copy, Debug, PartialEq, Eq, Structural)]
pub enum ProduceType {
    Audio,
    Video,
    ScreenshareAudio,
    ScreenshareVideo,
}

/// Kind of media carried by a track
#[derive(Clone, Copy, Debug, PartialEq, Eq, Structural)]
pub enum MediaKind {
    Audio,
    Video,
}

impl ProduceType {
    /// The kind of media that a producer of this type carries
    pub fn into_kind(self) -> (r: MediaKind)
        ensures
            r == (match self {
                ProduceType::Audio | ProduceType::ScreenshareAudio => MediaKind::Audio,
                ProduceType::Video | ProduceType::ScreenshareVideo => MediaKind::Video,
            }),
    {
        match self {
            ProduceType::Audio | ProduceType::ScreenshareAudio => MediaKind::Audio,
            ProduceType::Video | ProduceType::ScreenshareVideo => MediaKind::Video,
        }
    }

    /// Read a produce type from its name; only audio is accepted
    pub fn from_str(s: &str) -> (r: Result<ProduceType, ()>)
        ensures
            r is Ok <==> s@ == "audio"@,
            r is Ok ==> r == Ok::<ProduceType, ()>(ProduceType::Audio),
    {
        if same_text(s, "audio") {
            Ok(ProduceType::Audio)
        } else {
            Err(())
        }
    }
}

/// What the management surface tells about a user
pub struct UserInfo {
    pub audio: bool,
}

/// Version of this server
pub const VORTEX_VERSION: &'static str = "0.1.0";

/// Features that this server offers
pub struct Features {
    pub rtp: bool,
}

/// Self-description of the server
pub struct Info {
    pub vortex: &'static str,
    pub features: Features,
    pub ws: String,
}

/// Describe the server: its version, whether plain RTP is offered, and where
/// clients connect
pub fn get_info(disable_rtp: bool, ws_url: String) -> (r: Info)
    ensures
        r.vortex@ == VORTEX_VERSION@,
        r.features.rtp == !disable_rtp,
        r.ws@ == ws_url@,
{
    let features = Features { rtp: !disable_rtp };
    Info { vortex: VORTEX_VERSION, features, ws: ws_url }
}

} // verus!
