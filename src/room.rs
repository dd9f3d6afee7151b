use vstd::prelude::*;

use crate::packets::{MediaType, RemoteTrack, RemoteTrackView, ServerError};
use crate::text::{contains_text, same_text, views};
use crate::track_map::{entry_ids, entry_views, Slots, TrackMap};

verus! {

/// Room event which indicates something happened to a peer
#[derive(Debug, Clone)]
pub enum RoomEvent {
    CreateTrack(RemoteTrack),
    RemoveTrack { removed_tracks: Vec<String> },
    UserJoin { user_id: String },
    UserLeft { user_id: String },
}

/// Model of a room event.
pub enum RoomEventView {
    CreateTrack(RemoteTrackView),
    RemoveTrack(Seq<Seq<char>>),
    UserJoin(Seq<char>),
    UserLeft(Seq<char>),
}

impl View for RoomEvent {
    type V = RoomEventView;

    open spec fn view(&self) -> RoomEventView {
        match self {
            RoomEvent::CreateTrack(t) => RoomEventView::CreateTrack(t@),
            RoomEvent::RemoveTrack { removed_tracks } => RoomEventView::RemoveTrack(
                views(removed_tracks@),
            ),
            RoomEvent::UserJoin { user_id } => RoomEventView::UserJoin(user_id@),
            RoomEvent::UserLeft { user_id } => RoomEventView::UserLeft(user_id@),
        }
    }
}

/// The models of a sequence of events.
pub open spec fn event_views(v: Seq<RoomEvent>) -> Seq<RoomEventView> {
    v.map_values(|e: RoomEvent| e@)
}

/// The models of a sequence of remote tracks.
pub open spec fn remote_views(v: Seq<RemoteTrack>) -> Seq<RemoteTrackView> {
    v.map_values(|t: RemoteTrack| t@)
}

/// The models of a sequence of users.
pub open spec fn user_views(s: Seq<UserEntry>) -> Seq<(Seq<char>, Slots)> {
    s.map_values(|u: UserEntry| (u.id@, u.tracks@))
}

/// The models of a sequence of published tracks.
pub open spec fn track_views<T>(s: Seq<TrackEntry<T>>) -> Seq<(Seq<char>, T)> {
    s.map_values(|e: TrackEntry<T>| (e.id@, e.track))
}

/// A user of a room and the track map that it shares with the user's peer.
pub struct UserEntry {
    pub id: String,
    pub tracks: TrackMap,
}

/// A track published in a room, under its id.
pub struct TrackEntry<T> {
    pub id: String,
    pub track: T,
}

/// Model of a room: its users with their track maps, its published tracks in
/// the order of publication, and the events it has published and not yet
/// handed to the event bus.
pub struct RoomView<T> {
    pub id: Seq<char>,
    pub users: Seq<(Seq<char>, Slots)>,
    pub tracks: Seq<(Seq<char>, T)>,
    pub events: Seq<RoomEventView>,
}

/// The tracks that a user publishes, in slot order, as the protocol shows them.
pub open spec fn user_tracks(user_id: Seq<char>, slots: Slots) -> Seq<RemoteTrackView> {
    slots.entries().map_values(
        |e: (MediaType, Seq<char>)| RemoteTrackView { id: e.1, user_id, media_type: e.0 },
    )
}

/// The tracks of every user, user after user.
pub open spec fn available_tracks(users: Seq<(Seq<char>, Slots)>) -> Seq<RemoteTrackView>
    decreases users.len(),
{
    if users.len() == 0 {
        Seq::empty()
    } else {
        available_tracks(users.drop_last()) + user_tracks(users.last().0, users.last().1)
    }
}

/// The published tracks without those whose id is in `ids`.
pub open spec fn drop_ids<T>(tracks: Seq<(Seq<char>, T)>, ids: Seq<Seq<char>>) -> Seq<
    (Seq<char>, T),
> {
    tracks.filter(|e: (Seq<char>, T)| !ids.contains(e.0))
}

impl<T> RoomView<T> {
    /// No two users share an id.
    pub open spec fn wf(self) -> bool {
        forall|i: int, j: int|
            0 <= i < self.users.len() && 0 <= j < self.users.len() && i != j
                ==> #[trigger] self.users[i].0 != #[trigger] self.users[j].0
    }

    pub open spec fn has_user(self, user_id: Seq<char>) -> bool {
        exists|i: int| 0 <= i < self.users.len() && #[trigger] self.users[i].0 == user_id
    }

    /// Position of a user in the room.
    pub open spec fn user_index(self, user_id: Seq<char>) -> int {
        choose|i: int| 0 <= i < self.users.len() && #[trigger] self.users[i].0 == user_id
    }

    /// The track map of a user of the room.
    pub open spec fn slots_of(self, user_id: Seq<char>) -> Slots {
        self.users[self.user_index(user_id)].1
    }

    pub open spec fn has_track(self, id: Seq<char>) -> bool {
        exists|i: int| 0 <= i < self.tracks.len() && #[trigger] self.tracks[i].0 == id
    }

    pub open spec fn user_ids(self) -> Seq<Seq<char>> {
        self.users.map_values(|u: (Seq<char>, Slots)| u.0)
    }

    /// The room after a user joined it.
    pub open spec fn joined(self, user_id: Seq<char>) -> RoomView<T> {
        RoomView {
            users: self.users.push((user_id, Slots::empty())),
            events: self.events.push(RoomEventView::UserJoin(user_id)),
            ..self
        }
    }

    /// The room after a user left it: the user and the tracks of its track map
    /// are gone, and the removal of those tracks and the departure are
    /// published. A user who is not in the room leaves it unchanged.
    pub open spec fn without_user(self, user_id: Seq<char>) -> RoomView<T> {
        if self.has_user(user_id) {
            let i = self.user_index(user_id);
            let ids = self.users[i].1.ids();
            RoomView {
                users: self.users.remove(i),
                tracks: drop_ids(self.tracks, ids),
                events: self.events.push(RoomEventView::RemoveTrack(ids)).push(
                    RoomEventView::UserLeft(user_id),
                ),
                ..self
            }
        } else {
            self
        }
    }

    /// The room after a user of it published a track: the user's track map
    /// holds it in its media-type slot, it is the newest published track, and
    /// its creation is published.
    pub open spec fn with_track(
        self,
        user_id: Seq<char>,
        media_type: MediaType,
        id: Seq<char>,
        track: T,
    ) -> RoomView<T> {
        let i = self.user_index(user_id);
        RoomView {
            users: self.users.update(i, (user_id, self.users[i].1.set(media_type, Some(id)))),
            tracks: drop_ids(self.tracks, seq![id]).push((id, track)),
            events: self.events.push(
                RoomEventView::CreateTrack(RemoteTrackView { id, user_id, media_type }),
            ),
            ..self
        }
    }

    /// The room after a track was withdrawn: it is no longer published and its
    /// removal is published.
    pub open spec fn without_track(self, id: Seq<char>) -> RoomView<T> {
        RoomView {
            tracks: drop_ids(self.tracks, seq![id]),
            events: self.events.push(RoomEventView::RemoveTrack(seq![id])),
            ..self
        }
    }

    /// The answer to a user asking to provide track `id` in slot `media_type`:
    /// a user who is not in the room is refused; a filled slot accepts only the
    /// track it already holds.
    pub open spec fn register_outcome(self, user_id: Seq<char>, id: Seq<char>, media_type: MediaType) -> Result<(), ServerError> {
        if !self.has_user(user_id) {
            Err(ServerError::NotConnected)
        } else {
            match self.slots_of(user_id).get(media_type) {
                None => Ok(()),
                Some(held) => if held == id {
                    Ok(())
                } else {
                    Err(ServerError::MediaTypeSatisfied)
                },
            }
        }
    }

    /// The room after a user asked to provide track `id` in slot
    /// `media_type`: only an empty slot of a present user changes.
    pub open spec fn registered(self, user_id: Seq<char>, id: Seq<char>, media_type: MediaType) -> RoomView<T> {
        if self.has_user(user_id) && self.slots_of(user_id).get(media_type) is None {
            self.with_slots(user_id, self.slots_of(user_id).set(media_type, Some(id)))
        } else {
            self
        }
    }

    /// The room after a user withdrew track `id` from its track map.
    pub open spec fn unregistered(self, user_id: Seq<char>, id: Seq<char>) -> RoomView<T> {
        if self.has_user(user_id) {
            self.with_slots(user_id, self.slots_of(user_id).without(id))
        } else {
            self
        }
    }

    /// The room with the track map of a user replaced.
    pub open spec fn with_slots(self, user_id: Seq<char>, slots: Slots) -> RoomView<T> {
        let i = self.user_index(user_id);
        RoomView { users: self.users.update(i, (user_id, slots)), ..self }
    }
}

/// Room consisting of clients which can communicate with one another
pub struct Room<T> {
    id: String,
    users: Vec<UserEntry>,
    tracks: Vec<TrackEntry<T>>,
    events: Vec<RoomEvent>,
}

impl<T> View for Room<T> {
    type V = RoomView<T>;

    closed spec fn view(&self) -> RoomView<T> {
        RoomView {
            id: self.id@,
            users: user_views(self.users@),
            tracks: track_views(self.tracks@),
            events: event_views(self.events@),
        }
    }
}


impl<T> Room<T> {
    /// Create a new Room with no users, tracks or pending events
    pub fn new(id: String) -> (r: Room<T>)
        ensures
            r@.id == id@,
            r@.users.len() == 0,
            r@.tracks.len() == 0,
            r@.events.len() == 0,
            r@.wf(),
    {
        let r = Room { id, users: Vec::new(), tracks: Vec::new(), events: Vec::new() };
        assert(r@.users.len() == 0);
        r
    }

    /// ID of the room
    pub fn id(&self) -> (r: &String)
        ensures
            r@ == self@.id,
    {
        &self.id
    }

    /// Position of a user in the list of users
    fn find_user(&self, user_id: &str) -> (r: Option<usize>)
        ensures
            match r {
                Some(i) => i < self@.users.len() && self@.users[i as int].0 == user_id@,
                None => !self@.has_user(user_id@),
            },
    {
        let mut i: usize = 0;
        while i < self.users.len()
            invariant
                i <= self.users.len(),
                forall|j: int| 0 <= j < i ==> self@.users[j].0 != user_id@,
            decreases self.users.len() - i,
        {
            if same_text(self.users[i].id.as_str(), user_id) {
                return Some(i);
            }
            i = i + 1;
        }
        None
    }

    /// Check if a user is in a room
    pub fn in_room(&self, id: &str) -> (r: bool)
        ensures
            r == self@.has_user(id@),
    {
        self.find_user(id).is_some()
    }

    /// Publish an event to the room
    pub fn publish(&mut self, event: RoomEvent)
        ensures
            final(self)@ == (RoomView { events: old(self)@.events.push(event@), ..old(self)@ }),
    {
        self.events.push(event);
        assert(event_views(self.events@) =~= event_views(old(self).events@).push(event@));
    }

    /// Hand over the events published since the last call, oldest first
    pub fn take_events(&mut self) -> (r: Vec<RoomEvent>)
        ensures
            event_views(r@) == old(self)@.events,
            final(self)@ == (RoomView { events: Seq::empty(), ..old(self)@ }),
    {
        let mut r: Vec<RoomEvent> = Vec::new();
        std::mem::swap(&mut self.events, &mut r);
        assert(event_views(self.events@) =~= Seq::empty());
        r
    }

    /// Join a new user into the room, with an empty track map
    pub fn join_user(&mut self, id: String) -> (r: Result<(), ServerError>)
        requires
            old(self)@.wf(),
        ensures
            final(self)@.wf(),
            old(self)@.has_user(id@) ==> r == Err::<(), ServerError>(ServerError::AlreadyConnected)
                && final(self)@ == old(self)@,
            !old(self)@.has_user(id@) ==> r is Ok && final(self)@ == old(self)@.joined(id@),
    {
        if self.find_user(id.as_str()).is_some() {
            return Err(ServerError::AlreadyConnected);
        }
        // Let everyone know we joined
        let user_id = id.clone();
        self.publish(RoomEvent::UserJoin { user_id });
        // Add tracks to map
        let ghost before = self@;
        self.users.push(UserEntry { id, tracks: TrackMap::new() });
        assert(self@.users =~= before.users.push((id@, Slots::empty())));
        assert(self@ == old(self)@.joined(id@));
        Ok(())
    }

    /// Stop publishing every track whose id is in `ids`
    fn close_tracks(&mut self, ids: &Vec<String>)
        ensures
            final(self)@ == (RoomView {
                tracks: drop_ids(old(self)@.tracks, views(ids@)),
                ..old(self)@
            }),
    {
        let ghost idv = views(ids@);
        let ghost orig = old(self)@.tracks;
        let mut rest: Vec<TrackEntry<T>> = Vec::new();
        std::mem::swap(&mut self.tracks, &mut rest);
        let ghost k: int = 0;
        proof {
            reveal(Seq::filter);
        }
        assert(drop_ids(orig.take(0), idv) =~= Seq::empty());
        assert(track_views(self.tracks@) =~= Seq::empty());
        assert(track_views(rest@) =~= orig.skip(0));
        while rest.len() > 0
            invariant
                idv == views(ids@),
                orig == old(self)@.tracks,
                0 <= k <= orig.len(),
                rest.len() == orig.len() - k,
                self.id == old(self).id,
                self.users == old(self).users,
                self.events == old(self).events,
                track_views(self.tracks@) == drop_ids(orig.take(k), idv),
                track_views(rest@) == orig.skip(k),
            decreases rest.len(),
        {
            let ghost before = track_views(self.tracks@);
            let ghost rest_before = rest@;
            let e = rest.remove(0);
            assert(orig[k] == (e.id@, e.track)) by {
                assert(track_views(rest_before)[0]
                    == orig.skip(k)[0]);
            }
            assert(orig.take(k + 1).drop_last() =~= orig.take(k));
            assert(orig.take(k + 1).last() == orig[k]);
            let found = contains_text(ids, e.id.as_str());
            proof {
                reveal(Seq::filter);
            }
            assert(drop_ids(orig.take(k + 1), idv) == if !found {
                drop_ids(orig.take(k), idv).push(orig[k])
            } else {
                drop_ids(orig.take(k), idv)
            });
            if !found {
                self.tracks.push(e);
                assert(track_views(self.tracks@)
                    =~= before.push(orig[k]));
            } else {
                assert(track_views(self.tracks@) =~= before);
            }
            assert forall|x: int| 0 <= x < rest@.len() implies track_views(rest@)[x] == orig.skip(
                k + 1,
            )[x] by {
                assert(rest@[x] == rest_before[x + 1]);
                assert(track_views(rest_before)[x + 1] == orig.skip(k)[x + 1]);
            }
            assert(track_views(rest@) =~= orig.skip(k + 1));
            proof {
                k = k + 1;
            }
        }
        assert(orig.take(k) =~= orig);
        assert(self@.tracks =~= drop_ids(orig, views(ids@)));
    }

    /// Remove a user from the room: its tracks stop being published, and the
    /// removal of those tracks and then its departure are published
    pub fn remove_user(&mut self, id: &str)
        requires
            old(self)@.wf(),
        ensures
            final(self)@ == old(self)@.without_user(id@),
            final(self)@.wf(),
    {
        // Find all associated track information
        if let Some(i) = self.find_user(id) {
            let user = self.users.remove(i);
            let ghost after_remove = self@;
            assert(after_remove.users =~= old(self)@.users.remove(i as int));
            let entries = user.tracks.entries();
            let mut removed_tracks: Vec<String> = Vec::new();
            let mut j: usize = 0;
            while j < entries.len()
                invariant
                    j <= entries.len(),
                    entry_views(entries@) == user.tracks@.entries(),
                    removed_tracks@.len() == j,
                    views(removed_tracks@) == entry_ids(user.tracks@.entries().take(j as int)),
                decreases entries.len() - j,
            {
                let ghost before = removed_tracks@;
                let c = entries[j].1.clone();
                assert(entry_views(entries@)[j as int] == user.tracks@.entries()[j as int]);
                removed_tracks.push(c);
                assert forall|x: int| 0 <= x < j implies views(removed_tracks@)[x] == entry_ids(
                    user.tracks@.entries().take(j + 1),
                )[x] by {
                    assert(removed_tracks@[x] == before[x]);
                    assert(views(before)[x] == entry_ids(user.tracks@.entries().take(j as int))[x]);
                }
                assert(views(removed_tracks@) =~= entry_ids(user.tracks@.entries().take(j + 1)));
                j = j + 1;
            }
            assert(user.tracks@.entries().take(j as int) =~= user.tracks@.entries());
            let ghost ids = views(removed_tracks@);
            assert(ids == user.tracks@.ids());
            proof {
                let u = old(self)@.user_index(id@);
                assert(old(self)@.users[i as int].0 == id@);
                assert(u == i as int);
            }
            self.close_tracks(&removed_tracks);
            self.publish(RoomEvent::RemoveTrack { removed_tracks });
            // Let everyone know we left
            self.publish(RoomEvent::UserLeft { user_id: String::from_str(id) });
            proof {
                let r = self@;
                let o = old(self)@;
                assert forall|a: int, b: int|
                    0 <= a < r.users.len() && 0 <= b < r.users.len() && a != b implies #[trigger] r.users[a].0
                    != #[trigger] r.users[b].0 by {
                    let a2 = if a < i { a } else { a + 1 };
                    let b2 = if b < i { b } else { b + 1 };
                    assert(r.users[a] == o.users[a2]);
                    assert(r.users[b] == o.users[b2]);
                }
            }
        }
    }

    /// The position of a present user is the one that the model names.
    proof fn lemma_user_index(&self, i: usize, user_id: Seq<char>)
        requires
            self@.wf(),
            i < self@.users.len(),
            self@.users[i as int].0 == user_id,
        ensures
            self@.has_user(user_id),
            self@.user_index(user_id) == i as int,
    {
        let u = self@.user_index(user_id);
        assert(self@.users[u].0 == user_id);
    }

    /// Replace the track map of the user at position `i`
    fn replace_user_tracks(&mut self, i: usize, tracks: TrackMap)
        requires
            i < old(self)@.users.len(),
        ensures
            final(self)@ == (RoomView {
                users: old(self)@.users.update(i as int, (old(self)@.users[i as int].0, tracks@)),
                ..old(self)@
            }),
    {
        let mut u = self.users.remove(i);
        u.tracks = tracks;
        self.users.insert(i, u);
        assert(self@.users =~= old(self)@.users.update(
            i as int,
            (old(self)@.users[i as int].0, tracks@),
        ));
    }

    /// Track map of a user of the room
    pub fn track_map(&self, user_id: &str) -> (r: Option<&TrackMap>)
        requires
            self@.wf(),
        ensures
            match r {
                Some(m) => self@.has_user(user_id@) && m@ == self@.slots_of(user_id@),
                None => !self@.has_user(user_id@),
            },
    {
        match self.find_user(user_id) {
            Some(i) => {
                proof {
                    self.lemma_user_index(i, user_id@);
                }
                Some(&self.users[i].tracks)
            },
            None => None,
        }
    }

    /// Record that a user provides track `id` in slot `media_type`. Asking
    /// again for the same track in the same slot changes nothing; asking for
    /// another track in a filled slot fails.
    pub fn register_track(&mut self, user_id: &str, id: String, media_type: MediaType) -> (r:
        Result<(), ServerError>)
        requires
            old(self)@.wf(),
        ensures
            final(self)@.wf(),
            r == old(self)@.register_outcome(user_id@, id@, media_type),
            final(self)@ == old(self)@.registered(user_id@, id@, media_type),
    {
        let i = match self.find_user(user_id) {
            Some(i) => i,
            None => return Err(ServerError::NotConnected),
        };
        proof {
            self.lemma_user_index(i, user_id@);
        }
        let mut tracks = self.users[i].tracks.copy();
        match tracks.get(media_type) {
            Some(held) => {
                if *held == id {
                    Ok(())
                } else {
                    Err(ServerError::MediaTypeSatisfied)
                }
            },
            None => {
                tracks.insert(media_type, id);
                self.replace_user_tracks(i, tracks);
                proof {
                    lemma_update_keeps_wf(old(self)@, i as int, self@);
                }
                Ok(())
            },
        }
    }

    /// Fill slot `media_type` of a user's track map with track `id`, replacing
    /// what it held
    pub fn assign_track(&mut self, user_id: &str, id: String, media_type: MediaType) -> (r: bool)
        requires
            old(self)@.wf(),
        ensures
            final(self)@.wf(),
            r == old(self)@.has_user(user_id@),
            r ==> final(self)@ == old(self)@.with_slots(
                user_id@,
                old(self)@.slots_of(user_id@).set(media_type, Some(id@)),
            ),
            !r ==> final(self)@ == old(self)@,
    {
        let i = match self.find_user(user_id) {
            Some(i) => i,
            None => return false,
        };
        proof {
            self.lemma_user_index(i, user_id@);
        }
        let mut tracks = self.users[i].tracks.copy();
        tracks.insert(media_type, id);
        self.replace_user_tracks(i, tracks);
        proof {
            lemma_update_keeps_wf(old(self)@, i as int, self@);
        }
        true
    }

    /// Empty every slot of a user's track map that holds track `id`
    pub fn unregister_track(&mut self, user_id: &str, id: &String)
        requires
            old(self)@.wf(),
        ensures
            final(self)@.wf(),
            final(self)@ == old(self)@.unregistered(user_id@, id@),
    {
        let i = match self.find_user(user_id) {
            Some(i) => i,
            None => return ,
        };
        proof {
            self.lemma_user_index(i, user_id@);
        }
        let mut tracks = self.users[i].tracks.copy();
        tracks.remove_id(id);
        self.replace_user_tracks(i, tracks);
        proof {
            lemma_update_keeps_wf(old(self)@, i as int, self@);
        }
    }

    /// Publish a track of a user: the user's track map holds it in slot
    /// `media_type`, the room keeps `local_track` under `id` (replacing a track
    /// of the same id), and everyone learns of the new track. A user who is
    /// not in the room cannot publish.
    pub fn add_track(&mut self, user_id: String, media_type: MediaType, id: String, local_track: T) -> (r:
        Result<(), ServerError>)
        requires
            old(self)@.wf(),
        ensures
            final(self)@.wf(),
            old(self)@.has_user(user_id@) ==> r is Ok && final(self)@ == old(self)@.with_track(
                user_id@,
                media_type,
                id@,
                local_track,
            ),
            !old(self)@.has_user(user_id@) ==> r == Err::<(), ServerError>(
                ServerError::NotConnected,
            ) && final(self)@ == old(self)@,
    {
        let i = match self.find_user(user_id.as_str()) {
            Some(i) => i,
            None => return Err(ServerError::NotConnected),
        };
        proof {
            self.lemma_user_index(i, user_id@);
        }
        let mut tracks = self.users[i].tracks.copy();
        tracks.insert(media_type, id.clone());
        self.replace_user_tracks(i, tracks);
        proof {
            lemma_update_keeps_wf(old(self)@, i as int, self@);
        }
        let mut ids: Vec<String> = Vec::new();
        ids.push(id.clone());
        assert(views(ids@) =~= seq![id@]);
        self.close_tracks(&ids);
        let ghost before = self@;
        self.tracks.push(TrackEntry { id: id.clone(), track: local_track });
        assert(self@.tracks =~= before.tracks.push((id@, local_track)));
        self.publish(RoomEvent::CreateTrack(RemoteTrack { id, user_id, media_type }));
        assert(self@.users =~= old(self)@.with_track(user_id@, media_type, id@, local_track).users);
        Ok(())
    }

    /// Get a local track
    pub fn get_track(&self, id: &str) -> (r: Option<&T>)
        ensures
            r is Some <==> self@.has_track(id@),
            r matches Some(t) ==> exists|i: int|
                0 <= i < self@.tracks.len() && self@.tracks[i] == (id@, *t),
    {
        let mut i: usize = 0;
        while i < self.tracks.len()
            invariant
                i <= self.tracks.len(),
                forall|j: int| 0 <= j < i ==> self@.tracks[j].0 != id@,
            decreases self.tracks.len() - i,
        {
            if same_text(self.tracks[i].id.as_str(), id) {
                assert(self@.tracks[i as int] == (id@, self.tracks@[i as int].track));
                assert(self@.tracks[i as int].0 == id@);
                return Some(&self.tracks[i].track);
            }
            i = i + 1;
        }
        None
    }

    /// Remove a local track: it stops being published and everyone learns of
    /// its removal
    pub fn remove_track(&mut self, id: String)
        ensures
            final(self)@ == old(self)@.without_track(id@),
    {
        let mut ids: Vec<String> = Vec::new();
        ids.push(id.clone());
        assert(views(ids@) =~= seq![id@]);
        self.close_tracks(&ids);
        let mut removed_tracks: Vec<String> = Vec::new();
        removed_tracks.push(id);
        self.publish(RoomEvent::RemoveTrack { removed_tracks });
    }

    /// Get all user IDs currently in the room
    pub fn get_user_ids(&self) -> (r: Vec<String>)
        ensures
            views(r@) == self@.user_ids(),
    {
        let mut r: Vec<String> = Vec::new();
        let mut i: usize = 0;
        while i < self.users.len()
            invariant
                i <= self.users.len(),
                r@.len() == i,
                views(r@) == self@.user_ids().take(i as int),
            decreases self.users.len() - i,
        {
            let ghost before = r@;
            let c = self.users[i].id.clone();
            r.push(c);
            assert forall|x: int| 0 <= x < i implies views(r@)[x] == self@.user_ids().take(
                i + 1,
            )[x] by {
                assert(r@[x] == before[x]);
                assert(views(before)[x] == self@.user_ids().take(i as int)[x]);
            }
            assert(views(r@) =~= self@.user_ids().take(i + 1));
            i = i + 1;
        }
        assert(self@.user_ids().take(i as int) =~= self@.user_ids());
        r
    }

    /// Get all currently available tracks which can be consumed
    pub fn get_available_tracks(&self) -> (r: Vec<RemoteTrack>)
        ensures
            remote_views(r@) == available_tracks(self@.users),
    {
        let mut r: Vec<RemoteTrack> = Vec::new();
        let mut i: usize = 0;
        while i < self.users.len()
            invariant
                i <= self.users.len(),
                remote_views(r@) == available_tracks(self@.users.take(i as int)),
            decreases self.users.len() - i,
        {
            let ghost prefix = remote_views(r@);
            let user = &self.users[i];
            let entries = user.tracks.entries();
            let ghost listed = user_tracks(user.id@, user.tracks@);
            let mut j: usize = 0;
            while j < entries.len()
                invariant
                    j <= entries.len(),
                    entry_views(entries@) == user.tracks@.entries(),
                    listed == user_tracks(user.id@, user.tracks@),
                    listed.len() == entries.len(),
                    remote_views(r@) == prefix + listed.take(j as int),
                    r@.len() == prefix.len() + j,
                decreases entries.len() - j,
            {
                let ghost before = r@;
                let t = RemoteTrack {
                    id: entries[j].1.clone(),
                    user_id: user.id.clone(),
                    media_type: entries[j].0,
                };
                assert(entry_views(entries@)[j as int] == user.tracks@.entries()[j as int]);
                assert(t@ == listed[j as int]);
                r.push(t);
                assert forall|x: int| 0 <= x < before.len() implies remote_views(r@)[x]
                    == remote_views(before)[x] by {
                    assert(r@[x] == before[x]);
                }
                assert(remote_views(r@)[before.len() as int] == t@);
                assert forall|x: int| 0 <= x < r@.len() implies remote_views(r@)[x] == (prefix
                    + listed.take(j + 1))[x] by {
                    if x < before.len() {
                        assert(remote_views(before)[x] == (prefix + listed.take(j as int))[x]);
                    }
                }
                assert(remote_views(r@) =~= prefix + listed.take(j + 1));
                j = j + 1;
            }
            assert(listed.take(j as int) =~= listed);
            assert(self@.users.take(i + 1).drop_last() =~= self@.users.take(i as int));
            assert(self@.users[i as int] == (user.id@, user.tracks@));
            i = i + 1;
        }
        assert(self@.users.take(i as int) =~= self@.users);
        r
    }
}

/// Changing the track map of one user keeps the ids of the users distinct.
proof fn lemma_update_keeps_wf<T>(before: RoomView<T>, i: int, after: RoomView<T>)
    requires
        before.wf(),
        0 <= i < before.users.len(),
        after.users.len() == before.users.len(),
        after.users[i].0 == before.users[i].0,
        forall|j: int| 0 <= j < before.users.len() && j != i ==> after.users[j] == before.users[j],
    ensures
        after.wf(),
{
    assert forall|a: int, b: int|
        0 <= a < after.users.len() && 0 <= b < after.users.len() && a != b implies #[trigger] after.users[a].0
        != #[trigger] after.users[b].0 by {
        assert(after.users[a].0 == before.users[a].0);
        assert(after.users[b].0 == before.users[b].0);
    }
}

} // verus!
