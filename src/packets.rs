use vstd::prelude::*;

verus! {

/// Kinds of media track a user may publish; each one is a slot that holds at
/// most one track per user.
#[derive(Clone, Copy, Debug, PartialEq, Eq, Structural, Hash)]
pub enum MediaType {
    /// Audio stream
    Audio,
    /// Video stream
    Video,
    /// Screenshare audio stream
    ScreenAudio,
    /// Screenshare video stream
    ScreenVideo,
}

/// The name of a media type as it appears on the wire and in stream names.
pub open spec fn media_type_name(m: MediaType) -> Seq<char> {
    match m {
        MediaType::Audio => "Audio"@,
        MediaType::Video => "Video"@,
        MediaType::ScreenAudio => "ScreenAudio"@,
        MediaType::ScreenVideo => "ScreenVideo"@,
    }
}

/// Whether tracks of this media type carry video frames.
pub open spec fn is_video_kind(m: MediaType) -> bool {
    m == MediaType::Video || m == MediaType::ScreenVideo
}

impl MediaType {
    /// Wire name of the media type.
    pub fn as_str(&self) -> (r: &'static str)
        ensures
            r@ == media_type_name(*self),
    {
        match self {
            MediaType::Audio => "Audio",
            MediaType::Video => "Video",
            MediaType::ScreenAudio => "ScreenAudio",
            MediaType::ScreenVideo => "ScreenVideo",
        }
    }

    /// Wire name of the media type as an owned string.
    pub fn to_string(&self) -> (r: String)
        ensures
            r@ == media_type_name(*self),
    {
        String::from_str(self.as_str())
    }

    /// Video tracks get periodic keyframe requests sent to their publisher.
    pub fn is_video(&self) -> (r: bool)
        ensures
            r == is_video_kind(*self),
    {
        match self {
            MediaType::Video | MediaType::ScreenVideo => true,
            _ => false,
        }
    }
}

/// Representation of an available track on the server
#[derive(Debug, Clone)]
pub struct RemoteTrack {
    /// ID of the track
    pub id: String,
    /// User ID of whoever owns the track
    pub user_id: String,
    /// Type of media this track provides
    pub media_type: MediaType,
}

/// Model of a remote track: its id, its owner and its media type.
pub struct RemoteTrackView {
    pub id: Seq<char>,
    pub user_id: Seq<char>,
    pub media_type: MediaType,
}

impl View for RemoteTrack {
    type V = RemoteTrackView;

    open spec fn view(&self) -> RemoteTrackView {
        RemoteTrackView { id: self.id@, user_id: self.user_id@, media_type: self.media_type }
    }
}

/// Browser compliant ICE candidate
#[derive(Debug, Clone)]
pub struct ICECandidate {
    pub candidate: String,
    pub sdp_mid: String,
    pub sdp_mline_index: u16,
    pub username_fragment: String,
}

/// Type of a session description, as in the WebRTC specification.
#[derive(Clone, Copy, Debug, PartialEq, Eq, Structural)]
pub enum SdpType {
    Unspecified,
    Offer,
    Pranswer,
    Answer,
    Rollback,
}

/// A session description exchanged during negotiation.
#[derive(Debug, Clone)]
pub struct SessionDescription {
    pub sdp_type: SdpType,
    pub sdp: String,
}

/// Either description or ICE candidate
#[derive(Debug, Clone)]
pub enum Negotiation {
    /// Session Description, with the media types of tracks that the client is
    /// about to send, in the order in which they will arrive
    SDP { description: SessionDescription, media_type_buffer: Option<Vec<MediaType>> },
    /// ICE Candidate
    ICE { candidate: ICECandidate },
}

/// Packet sent from the client to the server
#[derive(Debug)]
pub enum PacketC2S {
    /// Connect to a given room
    Connect {
        /// Room ID
        room_id: String,
        /// Authentication token
        token: String,
    },
    /// Give the server track IDs of the type of media we want to start producing
    RequestTrack {
        /// Request a new audio track
        audio: Option<String>,
        /// Request a new video track
        video: Option<String>,
        /// Request a new screenshare audio track
        screen_audio: Option<String>,
        /// Request a new screenshare video track
        screen_video: Option<String>,
    },
    /// Tell the server to send tracks
    Continue {
        /// IDs of tracks the client wants
        tracks: Vec<String>,
    },
    /// Tell the server certain tracks are no longer available
    Remove {
        /// IDs of tracks the client is no longer producing
        removed_tracks: Vec<String>,
    },
    /// Negotiation
    Negotiation(Negotiation),
}

/// Packet sent from the server to the client
#[derive(Debug)]
pub enum PacketS2C {
    /// Accept connection to room
    Accept {
        /// Currently available tracks
        available_tracks: Vec<RemoteTrack>,
        /// Users currently in the room
        user_ids: Vec<String>,
    },
    /// Tell the client about a new available track
    Announce {
        /// Newly created remote track
        track: RemoteTrack,
    },
    /// Tell the client to send tracks
    Continue {
        /// IDs of tracks the server wants
        tracks: Vec<String>,
    },
    /// Tell the client certain tracks are no longer available
    Remove {
        /// IDs of tracks that are no longer being produced
        removed_tracks: Vec<String>,
    },
    /// Negotiation
    Negotiation(Negotiation),
    /// User joined the room
    UserJoin {
        /// ID of new user
        user_id: String,
    },
    /// User left the room
    UserLeft {
        /// ID of leaving user
        user_id: String,
    },
    /// Disconnection error
    Error { error: String },
}

/// An error occurred on the server
#[derive(Clone, Copy, Debug, PartialEq, Eq, Structural)]
pub enum ServerError {
    RoomNotFound,
    TrackNotFound,
    FailedToAuthenticate,
    AlreadyConnected,
    NotConnected,
    MediaTypeSatisfied,
}

/// The key by which an error is reported to clients.
pub open spec fn server_error_key(e: ServerError) -> Seq<char> {
    match e {
        ServerError::RoomNotFound => "RoomNotFound"@,
        ServerError::TrackNotFound => "TrackNotFound"@,
        ServerError::FailedToAuthenticate => "FailedToAuthenticate"@,
        ServerError::AlreadyConnected => "AlreadyConnected"@,
        ServerError::NotConnected => "NotConnected"@,
        ServerError::MediaTypeSatisfied => "MediaTypeSatisfied"@,
    }
}

/// The sentence that describes an error for people.
pub open spec fn server_error_description(e: ServerError) -> Seq<char> {
    match e {
        ServerError::RoomNotFound => "This room ID does not exist."@,
        ServerError::TrackNotFound => "This track ID does not exist."@,
        ServerError::FailedToAuthenticate => "Something went wrong trying to authenticate you."@,
        ServerError::AlreadyConnected => "Already connected to a room!"@,
        ServerError::NotConnected => "Not connected to any room!"@,
        ServerError::MediaTypeSatisfied => "Media type already has an existing track!"@,
    }
}

impl ServerError {
    /// The key by which the error is reported to clients.
    pub fn as_str(&self) -> (r: &'static str)
        ensures
            r@ == server_error_key(*self),
    {
        match self {
            ServerError::RoomNotFound => "RoomNotFound",
            ServerError::TrackNotFound => "TrackNotFound",
            ServerError::FailedToAuthenticate => "FailedToAuthenticate",
            ServerError::AlreadyConnected => "AlreadyConnected",
            ServerError::NotConnected => "NotConnected",
            ServerError::MediaTypeSatisfied => "MediaTypeSatisfied",
        }
    }

    /// Owned form of the error key.
    pub fn to_string(&self) -> (r: String)
        ensures
            r@ == server_error_key(*self),
    {
        String::from_str(self.as_str())
    }

    /// A sentence describing the error for people.
    pub fn description(&self) -> (r: &'static str)
        ensures
            r@ == server_error_description(*self),
    {
        match self {
            ServerError::RoomNotFound => "This room ID does not exist.",
            ServerError::TrackNotFound => "This track ID does not exist.",
            ServerError::FailedToAuthenticate => "Something went wrong trying to authenticate you.",
            ServerError::AlreadyConnected => "Already connected to a room!",
            ServerError::NotConnected => "Not connected to any room!",
            ServerError::MediaTypeSatisfied => "Media type already has an existing track!",
        }
    }

    /// The packet that reports this error to the client.
    pub fn to_packet(&self) -> (r: PacketS2C)
        ensures
            r matches PacketS2C::Error { error } && error@ == server_error_key(*self),
    {
        PacketS2C::Error { error: self.to_string() }
    }
}

} // verus!
