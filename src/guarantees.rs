//! Properties that hold across the operations of rooms, peers and sessions.

use vstd::prelude::*;

use crate::packets::{MediaType, RemoteTrackView, ServerError};
use crate::peer::PeerView;
use crate::room::{available_tracks, user_tracks, RoomEventView, RoomView};
use crate::session::withdrawn;
use crate::track_map::Slots;

verus! {

/// A track map lists at most one track per media type.
pub proof fn lemma_one_track_per_media_type(slots: Slots)
    ensures
        forall|i: int, j: int|
            0 <= i < slots.entries().len() && 0 <= j < slots.entries().len() && i != j
                ==> #[trigger] slots.entries()[i].0 != #[trigger] slots.entries()[j].0,
{
    let e = slots.entries();
    assert forall|i: int, j: int|
        0 <= i < e.len() && 0 <= j < e.len() && i != j implies #[trigger] e[i].0 != #[trigger] e[j].0 by {
        lemma_entries_ordered(slots, i, j);
    }
}

/// The position of a media type in the listing order.
pub open spec fn rank(m: MediaType) -> int {
    match m {
        MediaType::Audio => 0,
        MediaType::Video => 1,
        MediaType::ScreenAudio => 2,
        MediaType::ScreenVideo => 3,
    }
}

proof fn lemma_entries_ordered(slots: Slots, i: int, j: int)
    requires
        0 <= i < j < slots.entries().len() || 0 <= j < i < slots.entries().len(),
    ensures
        slots.entries()[i].0 != slots.entries()[j].0,
{
    let e = slots.entries();
    assert forall|a: int, b: int| 0 <= a < b < e.len() implies rank(e[a].0) < rank(e[b].0) by {
        let a1 = crate::track_map::slot_entry(MediaType::Audio, slots.audio);
        let v1 = crate::track_map::slot_entry(MediaType::Video, slots.video);
        let s1 = crate::track_map::slot_entry(MediaType::ScreenAudio, slots.screen_audio);
        let s2 = crate::track_map::slot_entry(MediaType::ScreenVideo, slots.screen_video);
        assert(e == a1 + v1 + s1 + s2);
        assert forall|x: int| 0 <= x < a1.len() implies rank((a1 + v1 + s1 + s2)[x].0) == 0 by {}
        assert forall|x: int|
            a1.len() <= x < a1.len() + v1.len() implies rank((a1 + v1 + s1 + s2)[x].0) == 1 by {}
        assert forall|x: int|
            a1.len() + v1.len() <= x < a1.len() + v1.len() + s1.len() implies rank(
            (a1 + v1 + s1 + s2)[x].0,
        ) == 2 by {}
        assert forall|x: int|
            a1.len() + v1.len() + s1.len() <= x < e.len() implies rank((a1 + v1 + s1 + s2)[x].0)
            == 3 by {}
    }
}

/// Each listed track belongs to a user of the room.
pub proof fn lemma_available_tracks_owned(users: Seq<(Seq<char>, Slots)>, k: int)
    requires
        0 <= k < available_tracks(users).len(),
    ensures
        exists|i: int| 0 <= i < users.len() && #[trigger] users[i].0 == available_tracks(users)[k].user_id,
    decreases users.len(),
{
    let prev = available_tracks(users.drop_last());
    let last = user_tracks(users.last().0, users.last().1);
    assert(available_tracks(users) == prev + last);
    if k < prev.len() {
        lemma_available_tracks_owned(users.drop_last(), k);
        let i = choose|i: int|
            0 <= i < users.drop_last().len() && #[trigger] users.drop_last()[i].0 == prev[k].user_id;
        assert(users[i].0 == users.drop_last()[i].0);
    } else {
        assert(available_tracks(users)[k] == last[k - prev.len()]);
        assert(users[users.len() - 1].0 == available_tracks(users)[k].user_id);
    }
}

/// A user who left is gone from the room.
pub proof fn lemma_left_user_gone<T>(room: RoomView<T>, user_id: Seq<char>)
    requires
        room.wf(),
    ensures
        !room.without_user(user_id).has_user(user_id),
        room.without_user(user_id).wf(),
{
    if room.has_user(user_id) {
        let i = room.user_index(user_id);
        let after = room.without_user(user_id);
        assert(after.users == room.users.remove(i));
        if after.has_user(user_id) {
            let j = choose|j: int| 0 <= j < after.users.len() && #[trigger] after.users[j].0 == user_id;
            let j2 = if j < i { j } else { j + 1 };
            assert(after.users[j] == room.users[j2]);
        }
        assert forall|a: int, b: int|
            0 <= a < after.users.len() && 0 <= b < after.users.len() && a != b implies #[trigger] after.users[a].0
            != #[trigger] after.users[b].0 by {
            let a2 = if a < i { a } else { a + 1 };
            let b2 = if b < i { b } else { b + 1 };
            assert(after.users[a] == room.users[a2]);
            assert(after.users[b] == room.users[b2]);
        }
    }
}

/// After a user leaves a room, no track that the room lists belongs to that
/// user.
pub proof fn lemma_left_user_lists_no_track<T>(room: RoomView<T>, user_id: Seq<char>)
    requires
        room.wf(),
    ensures
        forall|k: int|
            0 <= k < available_tracks(room.without_user(user_id).users).len()
                ==> #[trigger] available_tracks(room.without_user(user_id).users)[k].user_id
                != user_id,
{
    let after = room.without_user(user_id);
    lemma_left_user_gone(room, user_id);
    assert forall|k: int| 0 <= k < available_tracks(after.users).len() implies #[trigger] available_tracks(
        after.users,
    )[k].user_id != user_id by {
        lemma_available_tracks_owned(after.users, k);
    }
}

/// Cleaning up a session twice leaves the room and the peer as cleaning up
/// once does.
pub proof fn lemma_clean_up_idempotent<T, F>(room: RoomView<T>, peer: PeerView<F>)
    requires
        room.wf(),
    ensures
        room.without_user(peer.user_id).without_user(peer.user_id) == room.without_user(
            peer.user_id,
        ),
        (PeerView { forwarders: Seq::empty(), ..(PeerView { forwarders: Seq::empty(), ..peer }) })
            == (PeerView { forwarders: Seq::empty(), ..peer }),
{
    lemma_left_user_gone(room, peer.user_id);
}

/// The track map of a user after a change of it, found under the user's id.
proof fn lemma_with_slots<T>(room: RoomView<T>, user_id: Seq<char>, slots: Slots)
    requires
        room.wf(),
        room.has_user(user_id),
    ensures
        room.with_slots(user_id, slots).wf(),
        room.with_slots(user_id, slots).has_user(user_id),
        room.with_slots(user_id, slots).slots_of(user_id) == slots,
        room.with_slots(user_id, slots).events == room.events,
        room.with_slots(user_id, slots).tracks == room.tracks,
{
    let i = room.user_index(user_id);
    let after = room.with_slots(user_id, slots);
    assert(after.users[i].0 == user_id);
    assert forall|a: int, b: int|
        0 <= a < after.users.len() && 0 <= b < after.users.len() && a != b implies #[trigger] after.users[a].0
        != #[trigger] after.users[b].0 by {
        assert(after.users[a].0 == room.users[a].0);
        assert(after.users[b].0 == room.users[b].0);
    }
    let j = after.user_index(user_id);
    assert(after.users[j].0 == user_id);
    assert(j == i);
}

/// Asking again for a track that was granted changes nothing and is granted
/// again.
pub proof fn lemma_register_idempotent<T>(
    room: RoomView<T>,
    user_id: Seq<char>,
    id: Seq<char>,
    media_type: MediaType,
)
    requires
        room.wf(),
        room.register_outcome(user_id, id, media_type) is Ok,
    ensures
        room.registered(user_id, id, media_type).register_outcome(user_id, id, media_type) is Ok,
        room.registered(user_id, id, media_type).registered(user_id, id, media_type)
            == room.registered(user_id, id, media_type),
{
    if room.slots_of(user_id).get(media_type) is None {
        lemma_with_slots(room, user_id, room.slots_of(user_id).set(media_type, Some(id)));
    }
}

/// Once a slot holds a track, asking for another track in it is refused with
/// `MediaTypeSatisfied` and changes nothing.
pub proof fn lemma_register_conflict<T>(
    room: RoomView<T>,
    user_id: Seq<char>,
    id: Seq<char>,
    other: Seq<char>,
    media_type: MediaType,
)
    requires
        room.wf(),
        room.register_outcome(user_id, id, media_type) is Ok,
        other != id,
    ensures
        room.registered(user_id, id, media_type).register_outcome(user_id, other, media_type)
            == Err::<(), ServerError>(ServerError::MediaTypeSatisfied),
        room.registered(user_id, id, media_type).registered(user_id, other, media_type)
            == room.registered(user_id, id, media_type),
{
    if room.slots_of(user_id).get(media_type) is None {
        lemma_with_slots(room, user_id, room.slots_of(user_id).set(media_type, Some(id)));
    }
}

/// A published track is held in its media-type slot by its user's track map,
/// the room publishes it, and its creation is the one event added.
pub proof fn lemma_published_track_held<T>(
    room: RoomView<T>,
    user_id: Seq<char>,
    media_type: MediaType,
    id: Seq<char>,
    track: T,
)
    requires
        room.wf(),
        room.has_user(user_id),
    ensures
        room.with_track(user_id, media_type, id, track).wf(),
        room.with_track(user_id, media_type, id, track).slots_of(user_id).get(media_type) == Some(
            id,
        ),
        room.with_track(user_id, media_type, id, track).has_track(id),
        room.with_track(user_id, media_type, id, track).events == room.events.push(
            RoomEventView::CreateTrack(RemoteTrackView { id, user_id, media_type }),
        ),
{
    let slots = room.slots_of(user_id).set(media_type, Some(id));
    lemma_with_slots(room, user_id, slots);
    let after = room.with_track(user_id, media_type, id, track);
    assert(after.users == room.with_slots(user_id, slots).users);
    assert(after.slots_of(user_id) == room.with_slots(user_id, slots).slots_of(user_id));
    let n = after.tracks.len() - 1;
    assert(after.tracks[n].0 == id);
}

/// A track that its user withdrew is neither held by the user's track map
/// nor published by the room.
pub proof fn lemma_withdrawn_track_gone<T>(room: RoomView<T>, user_id: Seq<char>, id: Seq<char>)
    requires
        room.wf(),
        room.has_user(user_id),
    ensures
        !withdrawn(room, user_id, seq![id]).slots_of(user_id).holds(id),
        !withdrawn(room, user_id, seq![id]).has_track(id),
{
    let ids = seq![id];
    assert(ids.drop_last() =~= Seq::<Seq<char>>::empty());
    let slots = room.slots_of(user_id).without(id);
    lemma_with_slots(room, user_id, slots);
    let mid = room.unregistered(user_id, id);
    let after = mid.without_track(id);
    assert(withdrawn(room, user_id, ids.drop_last()) == room);
    assert(ids.last() == id);
    assert(after == withdrawn(room, user_id, ids));
    assert(after.users == mid.users);
    assert(after.slots_of(user_id) == slots);
    if slots.holds(id) {
        let m = choose|m: MediaType| slots.get(m) == Some(id);
        match m {
            MediaType::Audio => {},
            MediaType::Video => {},
            MediaType::ScreenAudio => {},
            MediaType::ScreenVideo => {},
        }
    }
    if after.has_track(id) {
        let k = choose|k: int| 0 <= k < after.tracks.len() && #[trigger] after.tracks[k].0 == id;
        mid.tracks.lemma_filter_pred(|e: (Seq<char>, T)| !seq![id].contains(e.0), k);
        assert(seq![id].contains(id)) by {
            assert(seq![id][0] == id);
        }
    }
}

/// A track held by a slot of a track map is among the map's listed ids.
proof fn lemma_held_is_listed(slots: Slots, m: MediaType, id: Seq<char>)
    requires
        slots.get(m) == Some(id),
    ensures
        slots.ids().contains(id),
{
    let a1 = crate::track_map::slot_entry(MediaType::Audio, slots.audio);
    let v1 = crate::track_map::slot_entry(MediaType::Video, slots.video);
    let s1 = crate::track_map::slot_entry(MediaType::ScreenAudio, slots.screen_audio);
    let s2 = crate::track_map::slot_entry(MediaType::ScreenVideo, slots.screen_video);
    let e = slots.entries();
    assert(e == a1 + v1 + s1 + s2);
    let k = match m {
        MediaType::Audio => 0,
        MediaType::Video => a1.len() as int,
        MediaType::ScreenAudio => (a1.len() + v1.len()) as int,
        MediaType::ScreenVideo => (a1.len() + v1.len() + s1.len()) as int,
    };
    assert(e[k] == (m, id));
    assert(slots.ids()[k] == id);
}

/// Once a user has left, no track that its track map held is published.
pub proof fn lemma_left_user_tracks_closed<T>(room: RoomView<T>, user_id: Seq<char>, id: Seq<char>)
    requires
        room.wf(),
        room.has_user(user_id),
        room.slots_of(user_id).holds(id),
    ensures
        !room.without_user(user_id).has_track(id),
{
    let slots = room.slots_of(user_id);
    let m = choose|m: MediaType| slots.get(m) == Some(id);
    lemma_held_is_listed(slots, m, id);
    let ids = room.users[room.user_index(user_id)].1.ids();
    let after = room.without_user(user_id);
    if after.has_track(id) {
        let k = choose|k: int| 0 <= k < after.tracks.len() && #[trigger] after.tracks[k].0 == id;
        room.tracks.lemma_filter_pred(|e: (Seq<char>, T)| !ids.contains(e.0), k);
    }
}

/// Requesting a track and then publishing it adds exactly one event, the
/// creation of that track by its user with the requested media type; the
/// user's slot holds the track and the room publishes it.
pub proof fn lemma_request_then_publish_announces<T>(
    room: RoomView<T>,
    user_id: Seq<char>,
    media_type: MediaType,
    id: Seq<char>,
    track: T,
)
    requires
        room.wf(),
        room.register_outcome(user_id, id, media_type) is Ok,
    ensures
        ({
            let published = room.registered(user_id, id, media_type).with_track(
                user_id,
                media_type,
                id,
                track,
            );
            &&& published.events == room.events.push(
                RoomEventView::CreateTrack(RemoteTrackView { id, user_id, media_type }),
            )
            &&& published.slots_of(user_id).get(media_type) == Some(id)
            &&& published.has_track(id)
        }),
{
    let requested = room.registered(user_id, id, media_type);
    if room.slots_of(user_id).get(media_type) is None {
        lemma_with_slots(room, user_id, room.slots_of(user_id).set(media_type, Some(id)));
        let i = room.user_index(user_id);
        assert(requested.users[i].0 == user_id);
    }
    assert(requested.has_user(user_id));
    assert(requested.events == room.events);
    lemma_published_track_held(requested, user_id, media_type, id, track);
}

} // verus!
