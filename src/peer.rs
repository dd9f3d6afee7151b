//! The part of a client's peer that decides: which tracks it forwards to the
//! client, which media types it expects from the client, and where it stands
//! in negotiation. The connection itself belongs to whoever drives the peer.

use vstd::prelude::*;

use crate::negotiation::{NegotiationState, SdpStep};
use crate::packets::{media_type_name, MediaType, SdpType, ServerError};
use crate::room::{Room, RoomView};
use crate::text::same_text;

verus! {

/// A forwarder from a room's track to this peer's connection, under the id of
/// that track.
pub struct ForwarderEntry<F> {
    pub id: String,
    pub forwarder: F,
}

/// Model of a peer.
pub struct PeerView<F> {
    pub user_id: Seq<char>,
    pub forwarders: Seq<(Seq<char>, F)>,
    pub negotiation: NegotiationState,
    pub media_type_buffer: Seq<MediaType>,
}

/// The models of a sequence of forwarders.
pub open spec fn forwarder_views<F>(s: Seq<ForwarderEntry<F>>) -> Seq<(Seq<char>, F)> {
    s.map_values(|e: ForwarderEntry<F>| (e.id@, e.forwarder))
}

impl<F> PeerView<F> {
    /// No two forwarders carry the same track.
    pub open spec fn wf(self) -> bool {
        forall|i: int, j: int|
            0 <= i < self.forwarders.len() && 0 <= j < self.forwarders.len() && i != j
                ==> #[trigger] self.forwarders[i].0 != #[trigger] self.forwarders[j].0
    }

    pub open spec fn has_forwarder(self, id: Seq<char>) -> bool {
        exists|i: int| 0 <= i < self.forwarders.len() && #[trigger] self.forwarders[i].0 == id
    }

    pub open spec fn forwarder_index(self, id: Seq<char>) -> int {
        choose|i: int| 0 <= i < self.forwarders.len() && #[trigger] self.forwarders[i].0 == id
    }

    /// The peer after it stopped forwarding track `id`.
    pub open spec fn without_forwarder(self, id: Seq<char>) -> PeerView<F> {
        if self.has_forwarder(id) {
            PeerView { forwarders: self.forwarders.remove(self.forwarder_index(id)), ..self }
        } else {
            self
        }
    }

    /// The peer after it started forwarding track `id` through `f`, in place
    /// of any forwarder it had for that track.
    pub open spec fn with_forwarder(self, id: Seq<char>, f: F) -> PeerView<F> {
        if self.has_forwarder(id) {
            PeerView { forwarders: self.forwarders.update(self.forwarder_index(id), (id, f)), ..self }
        } else {
            PeerView { forwarders: self.forwarders.push((id, f)), ..self }
        }
    }
}

/// The name of the stream that carries a published track.
pub open spec fn stream_name_of(user_id: Seq<char>, media_type: MediaType, id: Seq<char>) -> Seq<
    char,
> {
    user_id + ":"@ + media_type_name(media_type) + ":"@ + id
}

/// How writing a forwarded packet failed.
#[derive(Debug, Clone, Copy, PartialEq, Eq, Structural)]
pub enum WriteFailure {
    /// No one reads the track at the moment
    ClosedPipe,
    /// Anything else
    Other,
}

impl WriteFailure {
    /// Whether forwarding goes on after this failure: only a closed pipe is
    /// passed over.
    pub fn keeps_forwarding(&self) -> (r: bool)
        ensures
            r == (*self == WriteFailure::ClosedPipe),
    {
        match self {
            WriteFailure::ClosedPipe => true,
            WriteFailure::Other => false,
        }
    }
}

/// Abstraction of a client's peer connection, over the forwarders `F` that
/// carry tracks of the room to it
pub struct Peer<F> {
    user_id: String,
    forwarders: Vec<ForwarderEntry<F>>,
    negotiation_state: NegotiationState,
    media_type_buffer: Vec<MediaType>,
}

impl<F> View for Peer<F> {
    type V = PeerView<F>;

    closed spec fn view(&self) -> PeerView<F> {
        PeerView {
            user_id: self.user_id@,
            forwarders: forwarder_views(self.forwarders@),
            negotiation: self.negotiation_state,
            media_type_buffer: self.media_type_buffer@,
        }
    }
}

impl<F> Peer<F> {
    /// Create a new Peer for a user, with no forwarders and nothing negotiated
    pub fn new(user_id: String) -> (r: Peer<F>)
        ensures
            r@.user_id == user_id@,
            r@.forwarders.len() == 0,
            r@.media_type_buffer.len() == 0,
            r@.negotiation == NegotiationState::new_spec(),
            r@.wf(),
    {
        Peer {
            user_id,
            forwarders: Vec::new(),
            negotiation_state: NegotiationState::new(),
            media_type_buffer: Vec::new(),
        }
    }

    /// ID of the peer's user
    pub fn user_id(&self) -> (r: &String)
        ensures
            r@ == self@.user_id,
    {
        &self.user_id
    }

    /// Where the peer stands in negotiation
    pub fn negotiation_state(&self) -> (r: NegotiationState)
        ensures
            r == self@.negotiation,
    {
        self.negotiation_state
    }

    /// Replace the negotiation state
    pub fn set_negotiation_state(&mut self, state: NegotiationState)
        ensures
            final(self)@ == (PeerView { negotiation: state, ..old(self)@ }),
    {
        self.negotiation_state = state;
    }

    /// Take in a description from the client; see
    /// `NegotiationState::consume_description`
    pub fn consume_description(&mut self, sdp_type: SdpType, signaling_stable: bool) -> (r: SdpStep)
        ensures
            r == old(self)@.negotiation.description_step(sdp_type, signaling_stable),
            final(self)@ == (PeerView {
                negotiation: old(self)@.negotiation.after_description(sdp_type, signaling_stable),
                ..old(self)@
            }),
    {
        self.negotiation_state.consume_description(sdp_type, signaling_stable)
    }

    /// Register a new track that the client wants to provide
    pub fn register_track<T>(&self, room: &mut Room<T>, id: String, media_type: MediaType) -> (r:
        Result<(), ServerError>)
        requires
            old(room)@.wf(),
        ensures
            final(room)@.wf(),
            r == old(room)@.register_outcome(self@.user_id, id@, media_type),
            final(room)@ == old(room)@.registered(self@.user_id, id@, media_type),
    {
        room.register_track(self.user_id.as_str(), id, media_type)
    }

    /// Unregister an existing track in order to remove it
    pub fn unregister_track<T>(&self, room: &mut Room<T>, id: &String)
        requires
            old(room)@.wf(),
        ensures
            final(room)@.wf(),
            final(room)@ == old(room)@.unregistered(self@.user_id, id@),
    {
        room.unregister_track(self.user_id.as_str(), id)
    }

    /// Position of the forwarder of track `id`
    fn find_forwarder(&self, id: &str) -> (r: Option<usize>)
        requires
            self@.wf(),
        ensures
            match r {
                Some(i) => i < self@.forwarders.len() && self@.forwarders[i as int].0 == id@
                    && self@.has_forwarder(id@) && self@.forwarder_index(id@) == i as int,
                None => !self@.has_forwarder(id@),
            },
    {
        let mut i: usize = 0;
        while i < self.forwarders.len()
            invariant
                self@.wf(),
                i <= self.forwarders.len(),
                forall|j: int| 0 <= j < i ==> self@.forwarders[j].0 != id@,
            decreases self.forwarders.len() - i,
        {
            if same_text(self.forwarders[i].id.as_str(), id) {
                assert(self@.forwarders[i as int].0 == id@);
                let ghost k = self@.forwarder_index(id@);
                assert(self@.forwarders[k].0 == id@);
                assert(k == i as int);
                return Some(i);
            }
            i = i + 1;
        }
        None
    }

    /// Whether the peer forwards track `id`
    pub fn is_forwarding(&self, id: &str) -> (r: bool)
        requires
            self@.wf(),
        ensures
            r == self@.has_forwarder(id@),
    {
        self.find_forwarder(id).is_some()
    }

    /// Start forwarding track `id` through `forwarder`; a forwarder that the
    /// peer already had for that track is handed back, to be closed
    pub fn add_track(&mut self, id: String, forwarder: F) -> (r: Option<F>)
        requires
            old(self)@.wf(),
        ensures
            final(self)@.wf(),
            final(self)@ == old(self)@.with_forwarder(id@, forwarder),
            match r {
                Some(f) => old(self)@.has_forwarder(id@) && f == old(self)@.forwarders[old(
                    self,
                )@.forwarder_index(id@)].1,
                None => !old(self)@.has_forwarder(id@),
            },
    {
        match self.find_forwarder(id.as_str()) {
            Some(i) => {
                let ghost idv = id@;
                let old_entry = self.forwarders.remove(i);
                self.forwarders.insert(i, ForwarderEntry { id, forwarder });
                assert(self@.forwarders =~= old(self)@.forwarders.update(i as int, (idv, forwarder)));
                proof {
                    let o = old(self)@;
                    let n = self@;
                    assert forall|a: int, b: int|
                        0 <= a < n.forwarders.len() && 0 <= b < n.forwarders.len() && a != b implies #[trigger] n.forwarders[a].0
                        != #[trigger] n.forwarders[b].0 by {
                        assert(n.forwarders[a].0 == o.forwarders[a].0);
                        assert(n.forwarders[b].0 == o.forwarders[b].0);
                    }
                }
                Some(old_entry.forwarder)
            },
            None => {
                let ghost idv = id@;
                self.forwarders.push(ForwarderEntry { id, forwarder });
                assert(self@.forwarders =~= old(self)@.forwarders.push((idv, forwarder)));
                proof {
                    let o = old(self)@;
                    let n = self@;
                    assert forall|a: int, b: int|
                        0 <= a < n.forwarders.len() && 0 <= b < n.forwarders.len() && a != b implies #[trigger] n.forwarders[a].0
                        != #[trigger] n.forwarders[b].0 by {
                        if a < o.forwarders.len() && b < o.forwarders.len() {
                            assert(n.forwarders[a] == o.forwarders[a]);
                            assert(n.forwarders[b] == o.forwarders[b]);
                        } else if a < o.forwarders.len() {
                            assert(n.forwarders[a] == o.forwarders[a]);
                        } else {
                            assert(n.forwarders[b] == o.forwarders[b]);
                        }
                    }
                }
                None
            },
        }
    }

    /// Stop forwarding track `id`: its forwarder, if any, is handed back so
    /// that its sender can be taken off the connection
    pub fn remove_track(&mut self, id: &str) -> (r: Option<F>)
        requires
            old(self)@.wf(),
        ensures
            final(self)@.wf(),
            final(self)@ == old(self)@.without_forwarder(id@),
            match r {
                Some(f) => old(self)@.has_forwarder(id@) && f == old(self)@.forwarders[old(
                    self,
                )@.forwarder_index(id@)].1,
                None => !old(self)@.has_forwarder(id@),
            },
    {
        match self.find_forwarder(id) {
            Some(i) => {
                let entry = self.forwarders.remove(i);
                assert(self@.forwarders =~= old(self)@.forwarders.remove(i as int));
                proof {
                    let o = old(self)@;
                    let n = self@;
                    assert forall|a: int, b: int|
                        0 <= a < n.forwarders.len() && 0 <= b < n.forwarders.len() && a != b implies #[trigger] n.forwarders[a].0
                        != #[trigger] n.forwarders[b].0 by {
                        let a2 = if a < i { a } else { a + 1 };
                        let b2 = if b < i { b } else { b + 1 };
                        assert(n.forwarders[a] == o.forwarders[a2]);
                        assert(n.forwarders[b] == o.forwarders[b2]);
                    }
                }
                Some(entry.forwarder)
            },
            None => None,
        }
    }

    /// Clean up: every forwarder is handed back to be closed along with the
    /// connection
    pub fn clean_up(&mut self) -> (r: Vec<ForwarderEntry<F>>)
        ensures
            forwarder_views(r@) == old(self)@.forwarders,
            final(self)@ == (PeerView { forwarders: Seq::empty(), ..old(self)@ }),
            final(self)@.wf(),
    {
        let mut r: Vec<ForwarderEntry<F>> = Vec::new();
        std::mem::swap(&mut self.forwarders, &mut r);
        assert(forwarder_views(self.forwarders@) =~= Seq::empty());
        r
    }

    /// Queue the media types of tracks that the client announced it will send
    pub fn push_media_types(&mut self, media_types: Vec<MediaType>)
        ensures
            final(self)@ == (PeerView {
                media_type_buffer: old(self)@.media_type_buffer + media_types@,
                ..old(self)@
            }),
    {
        let mut media_types = media_types;
        self.media_type_buffer.append(&mut media_types);
    }

    /// Decide the media type of a track that the client started sending: the
    /// slot of the user's track map that holds its id, or else the oldest
    /// queued media type, which then holds the track. None when neither is
    /// there.
    pub fn claim_incoming_track<T>(&mut self, room: &mut Room<T>, id: String) -> (r: Option<MediaType>)
        requires
            old(room)@.wf(),
        ensures
            final(room)@.wf(),
            ({
                let o = old(room)@;
                let u = old(self)@.user_id;
                if o.has_user(u) && o.slots_of(u).holds(id@) {
                    r matches Some(m) && o.slots_of(u).get(m) == Some(id@) && final(room)@ == o
                        && final(self)@ == old(self)@
                } else if old(self)@.media_type_buffer.len() > 0 {
                    let m = old(self)@.media_type_buffer[0];
                    r == Some(m) && final(self)@ == (PeerView {
                        media_type_buffer: old(self)@.media_type_buffer.drop_first(),
                        ..old(self)@
                    }) && (o.has_user(u) ==> final(room)@ == o.with_slots(u, o.slots_of(u).set(m, Some(id@))))
                        && (!o.has_user(u) ==> final(room)@ == o)
                } else {
                    r is None && final(room)@ == o && final(self)@ == old(self)@
                }
            }),
    {
        if let Some(tracks) = room.track_map(self.user_id.as_str()) {
            if let Some(m) = tracks.media_type_of(&id) {
                return Some(m);
            }
        }
        if self.media_type_buffer.len() == 0 {
            return None;
        }
        let m = self.media_type_buffer.remove(0);
        assert(self.media_type_buffer@ =~= old(self)@.media_type_buffer.drop_first());
        room.assign_track(self.user_id.as_str(), id, m);
        Some(m)
    }

    /// Name of the stream that carries a track of this peer's user
    pub fn stream_name(&self, media_type: MediaType, id: &str) -> (r: String)
        ensures
            r@ == stream_name_of(self@.user_id, media_type, id@),
    {
        let name = self.user_id.clone();
        let name = name.concat(":");
        let name = name.concat(media_type.as_str());
        let name = name.concat(":");
        let name = name.concat(id);
        name
    }
}

} // verus!
