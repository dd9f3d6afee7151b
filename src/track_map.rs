use vstd::prelude::*;

use crate::packets::MediaType;

verus! {

/// Model of a track map: for each media-type slot, the id of the track that
/// fills it, if any.
pub struct Slots {
    pub audio: Option<Seq<char>>,
    pub video: Option<Seq<char>>,
    pub screen_audio: Option<Seq<char>>,
    pub screen_video: Option<Seq<char>>,
}

/// The four media types in the order in which a user's tracks are listed.
pub open spec fn slot_order() -> Seq<MediaType> {
    seq![MediaType::Audio, MediaType::Video, MediaType::ScreenAudio, MediaType::ScreenVideo]
}

/// One listed entry for a slot: none when it is empty.
pub open spec fn slot_entry(m: MediaType, o: Option<Seq<char>>) -> Seq<(MediaType, Seq<char>)> {
    match o {
        Some(id) => seq![(m, id)],
        None => Seq::empty(),
    }
}

impl Slots {
    pub open spec fn empty() -> Slots {
        Slots { audio: None, video: None, screen_audio: None, screen_video: None }
    }

    /// The track id that fills slot `m`.
    pub open spec fn get(self, m: MediaType) -> Option<Seq<char>> {
        match m {
            MediaType::Audio => self.audio,
            MediaType::Video => self.video,
            MediaType::ScreenAudio => self.screen_audio,
            MediaType::ScreenVideo => self.screen_video,
        }
    }

    /// Slot `m` filled with `id`, the others unchanged.
    pub open spec fn set(self, m: MediaType, id: Option<Seq<char>>) -> Slots {
        match m {
            MediaType::Audio => Slots { audio: id, ..self },
            MediaType::Video => Slots { video: id, ..self },
            MediaType::ScreenAudio => Slots { screen_audio: id, ..self },
            MediaType::ScreenVideo => Slots { screen_video: id, ..self },
        }
    }

    /// The track map as a mapping from media type to track id: a function, so
    /// that no media type has more than one track.
    pub open spec fn as_map(self) -> Map<MediaType, Seq<char>> {
        Map::new(|m: MediaType| self.get(m) is Some, |m: MediaType| self.get(m)->0)
    }

    /// The filled slots, in the order audio, video, screen audio, screen video.
    pub open spec fn entries(self) -> Seq<(MediaType, Seq<char>)> {
        slot_entry(MediaType::Audio, self.audio) + slot_entry(MediaType::Video, self.video)
            + slot_entry(MediaType::ScreenAudio, self.screen_audio) + slot_entry(
            MediaType::ScreenVideo,
            self.screen_video,
        )
    }

    /// The track ids of the filled slots, in slot order.
    pub open spec fn ids(self) -> Seq<Seq<char>> {
        entry_ids(self.entries())
    }

    /// Whether some slot holds the track `id`.
    pub open spec fn holds(self, id: Seq<char>) -> bool {
        exists|m: MediaType| self.get(m) == Some(id)
    }

    /// Every slot that held `id` emptied.
    pub open spec fn without(self, id: Seq<char>) -> Slots {
        Slots {
            audio: if self.audio == Some(id) { None } else { self.audio },
            video: if self.video == Some(id) { None } else { self.video },
            screen_audio: if self.screen_audio == Some(id) { None } else { self.screen_audio },
            screen_video: if self.screen_video == Some(id) { None } else { self.screen_video },
        }
    }
}

/// The models of a sequence of (media type, track id) pairs.
pub open spec fn entry_views(s: Seq<(MediaType, String)>) -> Seq<(MediaType, Seq<char>)> {
    s.map_values(|e: (MediaType, String)| (e.0, e.1@))
}

/// The track ids of a sequence of (media type, track id) pairs.
pub open spec fn entry_ids(s: Seq<(MediaType, Seq<char>)>) -> Seq<Seq<char>> {
    s.map_values(|e: (MediaType, Seq<char>)| e.1)
}

/// The model of an optional string.
pub open spec fn opt_view(o: Option<String>) -> Option<Seq<char>> {
    match o {
        Some(s) => Some(s@),
        None => None,
    }
}

/// Map of media types to the ids of the tracks that a user publishes.
#[derive(Debug)]
pub struct TrackMap {
    pub audio: Option<String>,
    pub video: Option<String>,
    pub screen_audio: Option<String>,
    pub screen_video: Option<String>,
}

impl View for TrackMap {
    type V = Slots;

    open spec fn view(&self) -> Slots {
        Slots {
            audio: opt_view(self.audio),
            video: opt_view(self.video),
            screen_audio: opt_view(self.screen_audio),
            screen_video: opt_view(self.screen_video),
        }
    }
}

fn clone_opt(o: &Option<String>) -> (r: Option<String>)
    ensures
        opt_view(r) == opt_view(*o),
{
    match o {
        Some(s) => Some(s.clone()),
        None => None,
    }
}

fn holds_id(o: &Option<String>, id: &String) -> (r: bool)
    ensures
        r == (opt_view(*o) == Some(id@)),
{
    match o {
        Some(s) => *s == *id,
        None => false,
    }
}

impl TrackMap {
    /// A track map with every slot empty.
    pub fn new() -> (r: TrackMap)
        ensures
            r@ == Slots::empty(),
    {
        TrackMap { audio: None, video: None, screen_audio: None, screen_video: None }
    }

    /// The id of the track in slot `media_type`.
    pub fn get(&self, media_type: MediaType) -> (r: Option<&String>)
        ensures
            match r {
                Some(s) => self@.get(media_type) == Some(s@),
                None => self@.get(media_type) is None,
            },
    {
        match media_type {
            MediaType::Audio => self.audio.as_ref(),
            MediaType::Video => self.video.as_ref(),
            MediaType::ScreenAudio => self.screen_audio.as_ref(),
            MediaType::ScreenVideo => self.screen_video.as_ref(),
        }
    }

    /// Fill slot `media_type` with `id`, replacing what it held.
    pub fn insert(&mut self, media_type: MediaType, id: String)
        ensures
            final(self)@ == old(self)@.set(media_type, Some(id@)),
    {
        match media_type {
            MediaType::Audio => self.audio = Some(id),
            MediaType::Video => self.video = Some(id),
            MediaType::ScreenAudio => self.screen_audio = Some(id),
            MediaType::ScreenVideo => self.screen_video = Some(id),
        }
    }

    /// Empty every slot that holds `id`.
    pub fn remove_id(&mut self, id: &String)
        ensures
            final(self)@ == old(self)@.without(id@),
    {
        if holds_id(&self.audio, id) {
            self.audio = None;
        }
        if holds_id(&self.video, id) {
            self.video = None;
        }
        if holds_id(&self.screen_audio, id) {
            self.screen_audio = None;
        }
        if holds_id(&self.screen_video, id) {
            self.screen_video = None;
        }
    }

    /// The media type of the first slot, in slot order, that holds `id`.
    pub fn media_type_of(&self, id: &String) -> (r: Option<MediaType>)
        ensures
            match r {
                Some(m) => self@.get(m) == Some(id@),
                None => !self@.holds(id@),
            },
    {
        if holds_id(&self.audio, id) {
            Some(MediaType::Audio)
        } else if holds_id(&self.video, id) {
            Some(MediaType::Video)
        } else if holds_id(&self.screen_audio, id) {
            Some(MediaType::ScreenAudio)
        } else if holds_id(&self.screen_video, id) {
            Some(MediaType::ScreenVideo)
        } else {
            proof {
                assert forall|m: MediaType| self@.get(m) != Some(id@) by {
                    match m {
                        MediaType::Audio => {},
                        MediaType::Video => {},
                        MediaType::ScreenAudio => {},
                        MediaType::ScreenVideo => {},
                    }
                }
            }
            None
        }
    }

    /// The filled slots in slot order, as (media type, track id) pairs.
    pub fn entries(&self) -> (r: Vec<(MediaType, String)>)
        ensures
            entry_views(r@) == self@.entries(),
    {
        let mut r: Vec<(MediaType, String)> = Vec::new();
        let ghost a = slot_entry(MediaType::Audio, self@.audio);
        let ghost v = slot_entry(MediaType::Video, self@.video);
        let ghost sa = slot_entry(MediaType::ScreenAudio, self@.screen_audio);
        let ghost sv = slot_entry(MediaType::ScreenVideo, self@.screen_video);
        if let Some(s) = &self.audio {
            r.push((MediaType::Audio, s.clone()));
        }
        assert(entry_views(r@) =~= a);
        if let Some(s) = &self.video {
            r.push((MediaType::Video, s.clone()));
        }
        assert(entry_views(r@) =~= a + v);
        if let Some(s) = &self.screen_audio {
            r.push((MediaType::ScreenAudio, s.clone()));
        }
        assert(entry_views(r@) =~= a + v + sa);
        if let Some(s) = &self.screen_video {
            r.push((MediaType::ScreenVideo, s.clone()));
        }
        assert(entry_views(r@) =~= a + v + sa + sv);
        r
    }

    /// A copy of the track map.
    pub fn copy(&self) -> (r: TrackMap)
        ensures
            r@ == self@,
    {
        TrackMap {
            audio: clone_opt(&self.audio),
            video: clone_opt(&self.video),
            screen_audio: clone_opt(&self.screen_audio),
            screen_video: clone_opt(&self.screen_video),
        }
    }
}

} // verus!
