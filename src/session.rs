//! Decisions of a client session: authentication, the dispatch of client
//! packets, the translation of room events, and clean-up. The session's
//! driver performs the I/O and the media-engine work that these call for.

use vstd::prelude::*;

use crate::packets::{
    ICECandidate, MediaType, PacketC2S, PacketS2C, RemoteTrackView, ServerError,
    SessionDescription,
};
use crate::peer::{ForwarderEntry, Peer, PeerView};
use crate::room::{available_tracks, remote_views, Room, RoomEvent, RoomView};
use crate::text::{same_text, views};

verus! {

/// User capabilities
pub struct UserCapabilities {
    pub audio: bool,
    pub video: bool,
    pub screenshare: bool,
}

impl UserCapabilities {
    /// No capability at all.
    pub fn none() -> (r: UserCapabilities)
        ensures
            !r.audio && !r.video && !r.screenshare,
    {
        UserCapabilities { audio: false, video: false, screenshare: false }
    }
}

/// User Information
pub struct UserInformation {
    pub id: String,
    pub capabilities: UserCapabilities,
}

/// What the driver of a session does after the session handled a packet.
#[derive(Debug)]
pub enum Command {
    /// Nothing more
    Nothing,
    /// Send this packet to the client
    Send(PacketS2C),
    /// Attach a forwarder for each of these tracks of the room, in order
    Attach(Vec<String>),
    /// Run the negotiation steps for this description from the client
    Negotiate(SessionDescription),
    /// Add this ICE candidate from the client to the connection
    AddCandidate(ICECandidate),
}

/// One requested slot: the media type, and the track id if the client asked
/// for that slot.
pub open spec fn request_entry(m: MediaType, o: Option<String>) -> Seq<(MediaType, Seq<char>)> {
    match o {
        Some(id) => seq![(m, id@)],
        None => Seq::empty(),
    }
}

/// The slots that a track request asks for, in the order audio, video,
/// screen audio, screen video.
pub open spec fn track_requests(
    audio: Option<String>,
    video: Option<String>,
    screen_audio: Option<String>,
    screen_video: Option<String>,
) -> Seq<(MediaType, Seq<char>)> {
    request_entry(MediaType::Audio, audio) + request_entry(MediaType::Video, video)
        + request_entry(MediaType::ScreenAudio, screen_audio) + request_entry(
        MediaType::ScreenVideo,
        screen_video,
    )
}

/// The room after a user registered the requested tracks one after the
/// other, stopping at the first refusal, together with that refusal.
pub open spec fn requested<T>(
    room: RoomView<T>,
    user_id: Seq<char>,
    reqs: Seq<(MediaType, Seq<char>)>,
) -> (RoomView<T>, Option<ServerError>)
    decreases reqs.len(),
{
    if reqs.len() == 0 {
        (room, None)
    } else {
        let (w, e) = requested(room, user_id, reqs.drop_last());
        if e is Some {
            (w, e)
        } else {
            let last = reqs.last();
            match w.register_outcome(user_id, last.1, last.0) {
                Ok(_) => (w.registered(user_id, last.1, last.0), None),
                Err(x) => (w, Some(x)),
            }
        }
    }
}

/// The room after a user withdrew the tracks `ids` one after the other: each
/// leaves the user's track map and stops being published, and its removal is
/// published.
pub open spec fn withdrawn<T>(room: RoomView<T>, user_id: Seq<char>, ids: Seq<Seq<char>>) -> RoomView<
    T,
>
    decreases ids.len(),
{
    if ids.len() == 0 {
        room
    } else {
        withdrawn(room, user_id, ids.drop_last()).unregistered(user_id, ids.last()).without_track(
            ids.last(),
        )
    }
}

/// The peer after it stopped forwarding the tracks `ids`, one after the other.
pub open spec fn without_forwarders<F>(peer: PeerView<F>, ids: Seq<Seq<char>>) -> PeerView<F>
    decreases ids.len(),
{
    if ids.len() == 0 {
        peer
    } else {
        without_forwarders(peer, ids.drop_last()).without_forwarder(ids.last())
    }
}

/// Whether every id of `ids` names a track that the room publishes.
pub open spec fn all_published<T>(room: RoomView<T>, ids: Seq<Seq<char>>) -> bool {
    forall|i: int| 0 <= i < ids.len() ==> room.has_track(#[trigger] ids[i])
}

/// The room and connection details of a `Connect` packet; None for any other
/// packet, which is passed over before authentication.
pub fn connect_request(packet: PacketC2S) -> (r: Option<(String, String)>)
    ensures
        match packet {
            PacketC2S::Connect { room_id, token } => r matches Some((a, b)) && a@ == room_id@ && b@
                == token@,
            _ => r is None,
        },
{
    match packet {
        PacketC2S::Connect { room_id, token } => Some((room_id, token)),
        _ => None,
    }
}

/// The user that authentication yields: a client whose authentication failed,
/// or who never asked for it, is refused with `FailedToAuthenticate`.
pub fn authenticated(user: Option<UserInformation>) -> (r: Result<UserInformation, ServerError>)
    ensures
        match user {
            Some(u) => r matches Ok(v) && v.id@ == u.id@,
            None => r == Err::<UserInformation, ServerError>(ServerError::FailedToAuthenticate),
        },
{
    match user {
        Some(u) => Ok(u),
        None => Err(ServerError::FailedToAuthenticate),
    }
}

/// Join an authenticated user into a room and create the user's peer.
pub fn open_session<T, F>(room: &mut Room<T>, user_id: String) -> (r: Result<Peer<F>, ServerError>)
    requires
        old(room)@.wf(),
    ensures
        final(room)@.wf(),
        old(room)@.has_user(user_id@) ==> r == Err::<Peer<F>, ServerError>(
            ServerError::AlreadyConnected,
        ) && final(room)@ == old(room)@,
        !old(room)@.has_user(user_id@) ==> final(room)@ == old(room)@.joined(user_id@) && (r matches Ok(
            p,
        ) && p@.user_id == user_id@ && p@.forwarders.len() == 0 && p@.wf()),
{
    let joined = room.join_user(user_id.clone());
    match joined {
        Ok(()) => Ok(Peer::new(user_id)),
        Err(e) => Err(e),
    }
}

/// The packet that tells a client what the room holds as it joins.
pub fn accept_packet<T>(room: &Room<T>) -> (r: PacketS2C)
    ensures
        r matches PacketS2C::Accept { available_tracks: t, user_ids: u } && remote_views(t@)
            == available_tracks(room@.users) && views(u@) == room@.user_ids(),
{
    PacketS2C::Accept {
        available_tracks: room.get_available_tracks(),
        user_ids: room.get_user_ids(),
    }
}

/// Register the requested tracks one after the other, stopping at the first
/// refusal. On success the client is told to go on with the ids.
fn request_tracks<T, F>(
    peer: &Peer<F>,
    room: &mut Room<T>,
    reqs: Vec<(MediaType, String)>,
) -> (r: Result<Vec<String>, ServerError>)
    requires
        old(room)@.wf(),
    ensures
        final(room)@.wf(),
        ({
            let reqv = reqs@.map_values(|e: (MediaType, String)| (e.0, e.1@));
            let (w, e) = requested(old(room)@, peer@.user_id, reqv);
            final(room)@ == w && match r {
                Ok(ids) => e is None && views(ids@) == reqv.map_values(
                    |e: (MediaType, Seq<char>)| e.1,
                ),
                Err(x) => e == Some(x),
            }
        }),
{
    let ghost reqv = reqs@.map_values(|e: (MediaType, String)| (e.0, e.1@));
    let mut ids: Vec<String> = Vec::new();
    let mut i: usize = 0;
    while i < reqs.len()
        invariant
            i <= reqs.len(),
            reqv == reqs@.map_values(|e: (MediaType, String)| (e.0, e.1@)),
            room@.wf(),
            requested(old(room)@, peer@.user_id, reqv.take(i as int)) == (room@, None::<
                ServerError,
            >),
            ids@.len() == i,
            views(ids@) == reqv.take(i as int).map_values(|e: (MediaType, Seq<char>)| e.1),
        decreases reqs.len() - i,
    {
        let m = reqs[i].0;
        let id = reqs[i].1.clone();
        assert(reqv.take(i + 1).drop_last() =~= reqv.take(i as int));
        assert(reqv.take(i + 1).last() == (m, id@));
        let registered = peer.register_track(room, id.clone(), m);
        match registered {
            Ok(()) => {},
            Err(e) => {
                proof {
                    lemma_requested_stops(old(room)@, peer@.user_id, reqv, i as int + 1);
                }
                return Err(e);
            },
        }
        let ghost before = ids@;
        ids.push(id);
        assert forall|x: int| 0 <= x < i implies views(ids@)[x] == reqv.take(i + 1).map_values(
            |e: (MediaType, Seq<char>)| e.1,
        )[x] by {
            assert(ids@[x] == before[x]);
            assert(views(before)[x] == reqv.take(i as int).map_values(
                |e: (MediaType, Seq<char>)| e.1,
            )[x]);
        }
        assert(views(ids@) =~= reqv.take(i + 1).map_values(|e: (MediaType, Seq<char>)| e.1));
        i = i + 1;
    }
    assert(reqv.take(i as int) =~= reqv);
    Ok(ids)
}

/// Once a request is refused, the requests after it change nothing.
proof fn lemma_requested_stops<T>(
    room: RoomView<T>,
    user_id: Seq<char>,
    reqs: Seq<(MediaType, Seq<char>)>,
    k: int,
)
    requires
        0 <= k <= reqs.len(),
        requested(room, user_id, reqs.take(k)).1 is Some,
    ensures
        requested(room, user_id, reqs) == requested(room, user_id, reqs.take(k)),
    decreases reqs.len() - k,
{
    if k < reqs.len() {
        assert(reqs.take(k + 1).drop_last() =~= reqs.take(k));
        lemma_requested_stops(room, user_id, reqs, k + 1);
    } else {
        assert(reqs.take(k) =~= reqs);
    }
}

/// Withdraw the tracks `ids` of a user one after the other: each leaves the
/// user's track map and stops being published.
fn withdraw_tracks<T, F>(peer: &Peer<F>, room: &mut Room<T>, ids: Vec<String>)
    requires
        old(room)@.wf(),
    ensures
        final(room)@.wf(),
        final(room)@ == withdrawn(old(room)@, peer@.user_id, views(ids@)),
{
    let ghost idv = views(ids@);
    let mut i: usize = 0;
    while i < ids.len()
        invariant
            i <= ids.len(),
            idv == views(ids@),
            room@.wf(),
            room@ == withdrawn(old(room)@, peer@.user_id, idv.take(i as int)),
        decreases ids.len() - i,
    {
        let id = ids[i].clone();
        assert(idv.take(i + 1).drop_last() =~= idv.take(i as int));
        assert(idv.take(i + 1).last() == id@);
        peer.unregister_track(room, &id);
        room.remove_track(id);
        i = i + 1;
    }
    assert(idv.take(i as int) =~= idv);
}

/// Whether the room publishes every track of `ids`.
fn all_tracks_published<T>(room: &Room<T>, ids: &Vec<String>) -> (r: bool)
    ensures
        r == all_published(room@, views(ids@)),
{
    let mut i: usize = 0;
    while i < ids.len()
        invariant
            i <= ids.len(),
            forall|j: int| 0 <= j < i ==> room@.has_track(#[trigger] views(ids@)[j]),
        decreases ids.len() - i,
    {
        if room.get_track(ids[i].as_str()).is_none() {
            assert(!room@.has_track(views(ids@)[i as int]));
            return false;
        }
        i = i + 1;
    }
    true
}

/// The requested slots of a track request, in slot order.
fn collect_requests(
    audio: Option<String>,
    video: Option<String>,
    screen_audio: Option<String>,
    screen_video: Option<String>,
) -> (r: Vec<(MediaType, String)>)
    ensures
        r@.map_values(|e: (MediaType, String)| (e.0, e.1@)) == track_requests(
            audio,
            video,
            screen_audio,
            screen_video,
        ),
{
    let ghost a = request_entry(MediaType::Audio, audio);
    let ghost v = request_entry(MediaType::Video, video);
    let ghost sa = request_entry(MediaType::ScreenAudio, screen_audio);
    let ghost sv = request_entry(MediaType::ScreenVideo, screen_video);
    let mut r: Vec<(MediaType, String)> = Vec::new();
    if let Some(id) = audio {
        r.push((MediaType::Audio, id));
    }
    assert(r@.map_values(|e: (MediaType, String)| (e.0, e.1@)) =~= a);
    if let Some(id) = video {
        r.push((MediaType::Video, id));
    }
    assert(r@.map_values(|e: (MediaType, String)| (e.0, e.1@)) =~= a + v);
    if let Some(id) = screen_audio {
        r.push((MediaType::ScreenAudio, id));
    }
    assert(r@.map_values(|e: (MediaType, String)| (e.0, e.1@)) =~= a + v + sa);
    if let Some(id) = screen_video {
        r.push((MediaType::ScreenVideo, id));
    }
    assert(r@.map_values(|e: (MediaType, String)| (e.0, e.1@)) =~= a + v + sa + sv);
    r
}

/// Handle a packet from an authenticated client.
///
/// - `Connect` is refused with `AlreadyConnected`.
/// - `RequestTrack` registers the requested slots in the order audio, video,
///   screen audio, screen video, stopping at the first refusal; on success the
///   client is told to go on with the requested ids.
/// - `Continue` asks for forwarders for the named tracks, or is refused whole
///   with `TrackNotFound` when the room does not publish one of them.
/// - `Remove` withdraws the named tracks from the user's track map and from
///   the room.
/// - `Negotiation` queues the announced media types, then hands the
///   description or the ICE candidate to the driver.
pub fn handle_message<T, F>(peer: &mut Peer<F>, room: &mut Room<T>, packet: PacketC2S) -> (r:
    Result<Command, ServerError>)
    requires
        old(room)@.wf(),
        old(peer)@.wf(),
    ensures
        final(room)@.wf(),
        final(peer)@.wf(),
        match packet {
            PacketC2S::Connect { .. } => r == Err::<Command, ServerError>(
                ServerError::AlreadyConnected,
            ) && final(room)@ == old(room)@ && final(peer)@ == old(peer)@,
            PacketC2S::RequestTrack { audio, video, screen_audio, screen_video } => {
                let reqs = track_requests(audio, video, screen_audio, screen_video);
                let (w, e) = requested(old(room)@, old(peer)@.user_id, reqs);
                final(room)@ == w && final(peer)@ == old(peer)@ && match e {
                    None => r matches Ok(Command::Send(PacketS2C::Continue { tracks })) && views(
                        tracks@,
                    ) == reqs.map_values(|e: (MediaType, Seq<char>)| e.1),
                    Some(x) => r == Err::<Command, ServerError>(x),
                }
            },
            PacketC2S::Continue { tracks } => final(room)@ == old(room)@ && final(peer)@ == old(
                peer,
            )@ && if all_published(old(room)@, views(tracks@)) {
                r matches Ok(Command::Attach(ids)) && views(ids@) == views(tracks@)
            } else {
                r == Err::<Command, ServerError>(ServerError::TrackNotFound)
            },
            PacketC2S::Remove { removed_tracks } => final(room)@ == withdrawn(
                old(room)@,
                old(peer)@.user_id,
                views(removed_tracks@),
            ) && final(peer)@ == old(peer)@ && r matches Ok(Command::Nothing),
            PacketC2S::Negotiation(
                crate::packets::Negotiation::SDP { description, media_type_buffer },
            ) => final(room)@ == old(room)@ && final(peer)@ == (PeerView {
                media_type_buffer: match media_type_buffer {
                    Some(b) => old(peer)@.media_type_buffer + b@,
                    None => old(peer)@.media_type_buffer,
                },
                ..old(peer)@
            }) && (r matches Ok(Command::Negotiate(d)) && d.sdp_type == description.sdp_type
                && d.sdp@ == description.sdp@),
            PacketC2S::Negotiation(crate::packets::Negotiation::ICE { candidate }) => final(room)@
                == old(room)@ && final(peer)@ == old(peer)@ && (r matches Ok(
                Command::AddCandidate(c),
            ) && c.candidate@ == candidate.candidate@ && c.sdp_mid@ == candidate.sdp_mid@
                && c.sdp_mline_index == candidate.sdp_mline_index && c.username_fragment@
                == candidate.username_fragment@),
        },
{
    match packet {
        PacketC2S::Connect { .. } => Err(ServerError::AlreadyConnected),
        PacketC2S::RequestTrack { audio, video, screen_audio, screen_video } => {
            // Keep track of all the IDs being registered
            let reqs = collect_requests(audio, video, screen_audio, screen_video);
            match request_tracks(peer, room, reqs) {
                // Confirm said IDs back to the user
                Ok(tracks) => Ok(Command::Send(PacketS2C::Continue { tracks })),
                Err(e) => Err(e),
            }
        },
        PacketC2S::Continue { tracks } => {
            if all_tracks_published(room, &tracks) {
                Ok(Command::Attach(tracks))
            } else {
                Err(ServerError::TrackNotFound)
            }
        },
        PacketC2S::Remove { removed_tracks } => {
            withdraw_tracks(peer, room, removed_tracks);
            Ok(Command::Nothing)
        },
        PacketC2S::Negotiation(negotiation) => match negotiation {
            crate::packets::Negotiation::SDP { description, media_type_buffer } => {
                if let Some(buffer) = media_type_buffer {
                    peer.push_media_types(buffer);
                }
                Ok(Command::Negotiate(description))
            },
            crate::packets::Negotiation::ICE { candidate } => Ok(Command::AddCandidate(candidate)),
        },
    }
}

/// What a session does with a room event: the forwarders to close, and the
/// packet, if any, to send to the client.
pub struct EventOutcome<F> {
    pub closed: Vec<F>,
    pub reply: Option<PacketS2C>,
}

/// Stop forwarding the tracks `ids`, one after the other, and hand back the
/// forwarders that carried them.
fn stop_forwarding<F>(peer: &mut Peer<F>, ids: &Vec<String>) -> (r: Vec<F>)
    requires
        old(peer)@.wf(),
    ensures
        final(peer)@.wf(),
        final(peer)@ == without_forwarders(old(peer)@, views(ids@)),
{
    let ghost idv = views(ids@);
    let mut closed: Vec<F> = Vec::new();
    let mut i: usize = 0;
    while i < ids.len()
        invariant
            i <= ids.len(),
            idv == views(ids@),
            peer@.wf(),
            peer@ == without_forwarders(old(peer)@, idv.take(i as int)),
        decreases ids.len() - i,
    {
        assert(idv.take(i + 1).drop_last() =~= idv.take(i as int));
        assert(idv.take(i + 1).last() == ids@[i as int]@);
        if let Some(f) = peer.remove_track(ids[i].as_str()) {
            closed.push(f);
        }
        i = i + 1;
    }
    assert(idv.take(i as int) =~= idv);
    closed
}

/// Translate a room event for this session's client:
/// - a new track of another user is announced, one of the user's own is not;
/// - removed tracks stop being forwarded, and their removal is passed on;
/// - users joining, the client's own user included, and users leaving are
///   passed on.
pub fn on_room_event<F>(peer: &mut Peer<F>, event: RoomEvent) -> (r: EventOutcome<F>)
    requires
        old(peer)@.wf(),
    ensures
        final(peer)@.wf(),
        match event {
            RoomEvent::CreateTrack(track) => final(peer)@ == old(peer)@ && r.closed@.len() == 0
                && if track.user_id@ == old(peer)@.user_id {
                r.reply is None
            } else {
                r.reply matches Some(PacketS2C::Announce { track: t }) && t@ == track@
            },
            RoomEvent::RemoveTrack { removed_tracks } => final(peer)@ == without_forwarders(
                old(peer)@,
                views(removed_tracks@),
            ) && (r.reply matches Some(PacketS2C::Remove { removed_tracks: ids }) && views(ids@)
                == views(removed_tracks@)),
            RoomEvent::UserJoin { user_id } => final(peer)@ == old(peer)@ && r.closed@.len() == 0
                && (r.reply matches Some(PacketS2C::UserJoin { user_id: u }) && u@ == user_id@),
            RoomEvent::UserLeft { user_id } => final(peer)@ == old(peer)@ && r.closed@.len() == 0
                && (r.reply matches Some(PacketS2C::UserLeft { user_id: u }) && u@ == user_id@),
        },
{
    match event {
        RoomEvent::CreateTrack(track) => {
            if same_text(track.user_id.as_str(), peer.user_id().as_str()) {
                EventOutcome { closed: Vec::new(), reply: None }
            } else {
                EventOutcome { closed: Vec::new(), reply: Some(PacketS2C::Announce { track }) }
            }
        },
        RoomEvent::RemoveTrack { removed_tracks } => {
            let closed = stop_forwarding(peer, &removed_tracks);
            EventOutcome { closed, reply: Some(PacketS2C::Remove { removed_tracks }) }
        },
        RoomEvent::UserJoin { user_id } => EventOutcome {
            closed: Vec::new(),
            reply: Some(PacketS2C::UserJoin { user_id }),
        },
        RoomEvent::UserLeft { user_id } => EventOutcome {
            closed: Vec::new(),
            reply: Some(PacketS2C::UserLeft { user_id }),
        },
    }
}

/// Clean up after a session: the user leaves the room, and the peer hands
/// back its forwarders to be closed with its connection.
pub fn clean_up<T, F>(room: &mut Room<T>, peer: &mut Peer<F>) -> (r: Vec<ForwarderEntry<F>>)
    requires
        old(room)@.wf(),
    ensures
        final(room)@.wf(),
        final(room)@ == old(room)@.without_user(old(peer)@.user_id),
        final(peer)@ == (PeerView { forwarders: Seq::empty(), ..old(peer)@ }),
{
    room.remove_user(peer.user_id().as_str());
    peer.clean_up()
}

} // verus!
