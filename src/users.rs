//! The users that the management surface creates in a room, each with a
//! one-time token that the user's client trades in to take its place.

use rand::RngCore;
use vstd::prelude::*;

use crate::management::{ApiError, ProduceType, UserInfo};
use crate::text::same_text;

verus! {

/// Number of random bytes in a token.
pub const TOKEN_BYTES: usize = 24;

/// Number of tokens drawn before giving up on finding a fresh one.
pub const TOKEN_ATTEMPTS: usize = 8;

/// The URL-safe, padded base64 text of a byte sequence.
pub uninterp spec fn base64_url_of(bytes: Seq<u8>) -> Seq<char>;

/// Relies on `base64::encode_config` with `base64::URL_SAFE`: the result is a
/// function of the bytes alone, four characters for every started group of
/// three bytes.
#[verifier::external_body]
fn encode_token(bytes: &[u8; 24]) -> (r: String)
    ensures
        r@ == base64_url_of(bytes@),
        r@.len() == 32,
{
    base64::encode_config(bytes, base64::URL_SAFE)
}

/// Relies on `rand::thread_rng` and `RngCore::try_fill_bytes`: random bytes,
/// or nothing when the generator fails.
#[verifier::external_body]
fn random_token_bytes() -> (r: Option<[u8; 24]>) {
    let mut bytes = [0u8; 24];
    match rand::thread_rng().try_fill_bytes(&mut bytes) {
        Ok(()) => Some(bytes),
        Err(_) => None,
    }
}

/// Draw a new token: random bytes written in URL-safe base64.
pub fn generate_token() -> (r: Result<String, ApiError>)
    ensures
        match r {
            Ok(t) => exists|b: Seq<u8>| b.len() == TOKEN_BYTES && t@ == base64_url_of(b),
            Err(e) => e is InternalServerError,
        },
{
    match random_token_bytes() {
        Some(bytes) => {
            let t = encode_token(&bytes);
            assert(bytes@.len() == TOKEN_BYTES);
            Ok(t)
        },
        None => Err(ApiError::InternalServerError),
    }
}

/// A user created in a room, who holds a token until its client registers
pub struct User {
    id: String,
    token: Option<String>,
    audio: bool,
}

/// Model of a user: its id, its token if it has not registered yet, and
/// whether it produces audio.
pub struct UserView {
    pub id: Seq<char>,
    pub token: Option<Seq<char>>,
    pub audio: bool,
}

impl View for User {
    type V = UserView;

    closed spec fn view(&self) -> UserView {
        UserView {
            id: self.id@,
            token: match self.token {
                Some(t) => Some(t@),
                None => None,
            },
            audio: self.audio,
        }
    }
}

impl User {
    /// ID of the user
    pub fn id(&self) -> (r: &String)
        ensures
            r@ == self@.id,
    {
        &self.id
    }

    /// Token of the user, until it registers
    pub fn token(&self) -> (r: Option<&String>)
        ensures
            match r {
                Some(t) => self@.token == Some(t@),
                None => self@.token is None,
            },
    {
        self.token.as_ref()
    }

    /// Whether the user's client has registered
    pub fn registered(&self) -> (r: bool)
        ensures
            r == (self@.token is None),
    {
        self.token.is_none()
    }

    /// Whether the user produces media of this type; only audio is kept
    pub fn get_producer(&self, produce_type: ProduceType) -> (r: bool)
        requires
            produce_type == ProduceType::Audio,
        ensures
            r == self@.audio,
    {
        self.audio
    }

    /// Record whether the user produces media of this type; only audio is
    /// kept, and only a registered user may produce
    pub fn set_producer(&mut self, produce_type: ProduceType, producing: bool) -> (r: Result<(), ()>)
        requires
            produce_type == ProduceType::Audio,
        ensures
            r is Ok <==> old(self)@.token is None,
            r is Ok ==> final(self)@ == (UserView { audio: producing, ..old(self)@ }),
            r is Err ==> final(self)@ == old(self)@,
    {
        if !self.registered() {
            return Err(());
        }
        self.audio = producing;
        Ok(())
    }

    /// What the management surface tells about the user
    pub fn into_info(&self) -> (r: UserInfo)
        ensures
            r.audio == self@.audio,
    {
        UserInfo { audio: self.audio }
    }
}

/// Event about the users of a room
#[derive(Debug)]
pub enum UserEvent {
    UserJoined(String),
    UserLeft(String),
}

/// The users of a room and the tokens not yet traded in
pub struct RoomUsers {
    users: Vec<User>,
    events: Vec<UserEvent>,
}

/// Model of the users of a room, and of the events about them not yet handed
/// out: `true` for a join, `false` for a departure.
pub struct RoomUsersView {
    pub users: Seq<UserView>,
    pub events: Seq<(bool, Seq<char>)>,
}

impl RoomUsersView {
    /// No two users share an id, nor two pending tokens.
    pub open spec fn wf(self) -> bool {
        &&& forall|i: int, j: int|
            0 <= i < self.users.len() && 0 <= j < self.users.len() && i != j
                ==> #[trigger] self.users[i].id != #[trigger] self.users[j].id
        &&& forall|i: int, j: int|
            0 <= i < self.users.len() && 0 <= j < self.users.len() && i != j
                && self.users[i].token is Some ==> #[trigger] self.users[i].token
                != #[trigger] self.users[j].token
    }

    pub open spec fn has_user(self, id: Seq<char>) -> bool {
        exists|i: int| 0 <= i < self.users.len() && #[trigger] self.users[i].id == id
    }

    pub open spec fn has_token(self, token: Seq<char>) -> bool {
        exists|i: int| 0 <= i < self.users.len() && #[trigger] self.users[i].token == Some(token)
    }
}

pub open spec fn user_event_view(e: UserEvent) -> (bool, Seq<char>) {
    match e {
        UserEvent::UserJoined(id) => (true, id@),
        UserEvent::UserLeft(id) => (false, id@),
    }
}

impl View for RoomUsers {
    type V = RoomUsersView;

    closed spec fn view(&self) -> RoomUsersView {
        RoomUsersView {
            users: self.users@.map_values(|u: User| u@),
            events: self.events@.map_values(|e: UserEvent| user_event_view(e)),
        }
    }
}

impl RoomUsers {
    /// No users yet
    pub fn from_room() -> (r: RoomUsers)
        ensures
            r@.users.len() == 0,
            r@.events.len() == 0,
            r@.wf(),
    {
        let r = RoomUsers { users: Vec::new(), events: Vec::new() };
        assert(r@.users =~= Seq::<UserView>::empty());
        assert(r@.events =~= Seq::<(bool, Seq<char>)>::empty());
        r
    }

    fn find_user(&self, id: &str) -> (r: Option<usize>)
        ensures
            match r {
                Some(i) => i < self@.users.len() && self@.users[i as int].id == id@,
                None => !self@.has_user(id@),
            },
    {
        let mut i: usize = 0;
        while i < self.users.len()
            invariant
                i <= self.users.len(),
                forall|j: int| 0 <= j < i ==> self@.users[j].id != id@,
            decreases self.users.len() - i,
        {
            if same_text(self.users[i].id.as_str(), id) {
                return Some(i);
            }
            i = i + 1;
        }
        None
    }

    fn find_token(&self, token: &str) -> (r: Option<usize>)
        ensures
            match r {
                Some(i) => i < self@.users.len() && self@.users[i as int].token == Some(token@),
                None => !self@.has_token(token@),
            },
    {
        let mut i: usize = 0;
        while i < self.users.len()
            invariant
                i <= self.users.len(),
                forall|j: int| 0 <= j < i ==> self@.users[j].token != Some(token@),
            decreases self.users.len() - i,
        {
            match &self.users[i].token {
                Some(t) => {
                    if same_text(t.as_str(), token) {
                        return Some(i);
                    }
                },
                None => {},
            }
            i = i + 1;
        }
        None
    }

    /// The user with this id
    pub fn get(&self, id: &str) -> (r: Option<&User>)
        ensures
            match r {
                Some(u) => u@.id == id@ && self@.users.contains(u@),
                None => !self@.has_user(id@),
            },
    {
        match self.find_user(id) {
            Some(i) => {
                assert(self@.users[i as int] == self.users@[i as int]@);
                Some(&self.users[i])
            },
            None => None,
        }
    }

    /// Create a user with a fresh token and hand the token back. An id that is
    /// taken is refused with `UserAlreadyExists`; when no fresh token can be
    /// drawn, the error is `InternalServerError`.
    pub fn new(&mut self, id: String) -> (r: Result<String, ApiError>)
        requires
            old(self)@.wf(),
        ensures
            final(self)@.wf(),
            old(self)@.has_user(id@) ==> (r matches Err(ApiError::UserAlreadyExists(x)) && x@ == id@),
            match r {
                Ok(token) => !old(self)@.has_user(id@) && !old(self)@.has_token(token@)
                    && final(self)@ == (RoomUsersView {
                    users: old(self)@.users.push(UserView { id: id@, token: Some(token@), audio: false }),
                    ..old(self)@
                }),
                Err(_) => final(self)@ == old(self)@,
            },
    {
        if self.find_user(id.as_str()).is_some() {
            return Err(ApiError::UserAlreadyExists(id));
        }
        let mut attempt: usize = 0;
        let mut token: Option<String> = None;
        while attempt < TOKEN_ATTEMPTS && token.is_none()
            invariant
                self@ == old(self)@,
                !old(self)@.has_user(id@),
                old(self)@.wf(),
                token matches Some(t) ==> !self@.has_token(t@),
            decreases TOKEN_ATTEMPTS - attempt,
        {
            match generate_token() {
                Ok(t) => {
                    if self.find_token(t.as_str()).is_none() {
                        token = Some(t);
                    }
                },
                Err(e) => return Err(e),
            }
            attempt = attempt + 1;
        }
        let token = match token {
            Some(t) => t,
            None => return Err(ApiError::InternalServerError),
        };
        let ghost tv = token@;
        self.users.push(User { id, token: Some(token.clone()), audio: false });
        assert(self@.users =~= old(self)@.users.push(UserView { id: self@.users.last().id, token: Some(tv), audio: false }));
        proof {
            let v = self@;
            let o = old(self)@;
            let n = o.users.len();
            assert forall|a: int, b: int|
                0 <= a < v.users.len() && 0 <= b < v.users.len() && a != b implies #[trigger] v.users[a].id
                != #[trigger] v.users[b].id by {
                if a < n && b < n {
                    assert(v.users[a] == o.users[a]);
                    assert(v.users[b] == o.users[b]);
                } else if a < n {
                    assert(v.users[a] == o.users[a]);
                } else {
                    assert(v.users[b] == o.users[b]);
                }
            }
            assert forall|a: int, b: int|
                0 <= a < v.users.len() && 0 <= b < v.users.len() && a != b && v.users[a].token is Some implies #[trigger] v.users[a].token
                != #[trigger] v.users[b].token by {
                if a < n && b < n {
                    assert(v.users[a] == o.users[a]);
                    assert(v.users[b] == o.users[b]);
                } else if a < n {
                    assert(v.users[a] == o.users[a]);
                } else {
                    assert(v.users[b] == o.users[b]);
                }
            }
        }
        Ok(token)
    }

    /// Trade in a token: its user becomes registered, and its joining is
    /// announced. A token that no user holds yields nothing.
    pub fn register(&mut self, token: &str) -> (r: Option<String>)
        requires
            old(self)@.wf(),
        ensures
            final(self)@.wf(),
            match r {
                Some(id) => old(self)@.has_token(token@) && exists|i: int|
                    0 <= i < old(self)@.users.len() && old(self)@.users[i].token == Some(token@)
                        && old(self)@.users[i].id == id@ && final(self)@ == (RoomUsersView {
                        users: old(self)@.users.update(i, UserView { token: None, ..old(self)@.users[i] }),
                        events: old(self)@.events.push((true, id@)),
                    }),
                None => !old(self)@.has_token(token@) && final(self)@ == old(self)@,
            },
    {
        let i = match self.find_token(token) {
            Some(i) => i,
            None => return None,
        };
        let mut user = self.users.remove(i);
        user.token = None;
        let id = user.id.clone();
        self.users.insert(i, user);
        self.events.push(UserEvent::UserJoined(id.clone()));
        assert(self@.users =~= old(self)@.users.update(
            i as int,
            UserView { token: None, ..old(self)@.users[i as int] },
        ));
        assert(self@.events =~= old(self)@.events.push((true, id@)));
        proof {
            let v = self@;
            let o = old(self)@;
            assert forall|a: int, b: int|
                0 <= a < v.users.len() && 0 <= b < v.users.len() && a != b implies #[trigger] v.users[a].id
                != #[trigger] v.users[b].id by {
                assert(v.users[a].id == o.users[a].id);
                assert(v.users[b].id == o.users[b].id);
            }
            assert forall|a: int, b: int|
                0 <= a < v.users.len() && 0 <= b < v.users.len() && a != b && v.users[a].token is Some implies #[trigger] v.users[a].token
                != #[trigger] v.users[b].token by {
                assert(v.users[a].token == o.users[a].token);
                if b != i {
                    assert(v.users[b].token == o.users[b].token);
                }
            }
        }
        Some(id)
    }

    /// Remove a user, announcing its departure; an unknown id is an error
    pub fn remove(&mut self, id: &str) -> (r: Result<(), ()>)
        requires
            old(self)@.wf(),
        ensures
            final(self)@.wf(),
            r is Ok <==> old(self)@.has_user(id@),
            r is Ok ==> exists|i: int|
                0 <= i < old(self)@.users.len() && old(self)@.users[i].id == id@ && final(self)@
                    == (RoomUsersView {
                    users: old(self)@.users.remove(i),
                    events: old(self)@.events.push((false, id@)),
                }),
            r is Err ==> final(self)@ == old(self)@,
    {
        let i = match self.find_user(id) {
            Some(i) => i,
            None => return Err(()),
        };
        self.users.remove(i);
        self.events.push(UserEvent::UserLeft(String::from_str(id)));
        assert(self@.users =~= old(self)@.users.remove(i as int));
        assert(self@.events =~= old(self)@.events.push((false, id@)));
        proof {
            let v = self@;
            let o = old(self)@;
            assert forall|a: int, b: int|
                0 <= a < v.users.len() && 0 <= b < v.users.len() && a != b implies #[trigger] v.users[a].id
                != #[trigger] v.users[b].id by {
                let a2 = if a < i { a } else { a + 1 };
                let b2 = if b < i { b } else { b + 1 };
                assert(v.users[a] == o.users[a2]);
                assert(v.users[b] == o.users[b2]);
            }
            assert forall|a: int, b: int|
                0 <= a < v.users.len() && 0 <= b < v.users.len() && a != b && v.users[a].token is Some implies #[trigger] v.users[a].token
                != #[trigger] v.users[b].token by {
                let a2 = if a < i { a } else { a + 1 };
                let b2 = if b < i { b } else { b + 1 };
                assert(v.users[a] == o.users[a2]);
                assert(v.users[b] == o.users[b2]);
            }
        }
        Ok(())
    }

    /// Record whether a registered user produces media of this type; only
    /// audio is kept. An unknown or unregistered user is an error.
    pub fn set_producer(&mut self, id: &str, produce_type: ProduceType, producing: bool) -> (r:
        Result<(), ()>)
        requires
            old(self)@.wf(),
            produce_type == ProduceType::Audio,
        ensures
            final(self)@.wf(),
            r is Ok ==> exists|i: int|
                0 <= i < old(self)@.users.len() && old(self)@.users[i].id == id@
                    && old(self)@.users[i].token is None && final(self)@ == (RoomUsersView {
                    users: old(self)@.users.update(i, UserView { audio: producing, ..old(self)@.users[i] }),
                    ..old(self)@
                }),
            r is Err ==> final(self)@ == old(self)@ && forall|i: int|
                0 <= i < old(self)@.users.len() && #[trigger] old(self)@.users[i].id == id@
                    ==> old(self)@.users[i].token is Some,
    {
        let i = match self.find_user(id) {
            Some(i) => i,
            None => return Err(()),
        };
        proof {
            let o = old(self)@;
            assert forall|j: int| 0 <= j < o.users.len() && #[trigger] o.users[j].id == id@ implies j == i as int by {}
        }
        if !self.users[i].registered() {
            return Err(());
        }
        let mut user = self.users.remove(i);
        let set = user.set_producer(produce_type, producing);
        self.users.insert(i, user);
        assert(self@.users =~= old(self)@.users.update(
            i as int,
            UserView { audio: producing, ..old(self)@.users[i as int] },
        ));
        proof {
            let v = self@;
            let o = old(self)@;
            assert forall|a: int, b: int|
                0 <= a < v.users.len() && 0 <= b < v.users.len() && a != b implies #[trigger] v.users[a].id
                != #[trigger] v.users[b].id by {
                assert(v.users[a].id == o.users[a].id);
                assert(v.users[b].id == o.users[b].id);
            }
            assert forall|a: int, b: int|
                0 <= a < v.users.len() && 0 <= b < v.users.len() && a != b && v.users[a].token is Some implies #[trigger] v.users[a].token
                != #[trigger] v.users[b].token by {
                assert(v.users[a].token == o.users[a].token);
                assert(v.users[b].token == o.users[b].token);
            }
        }
        set
    }

    /// Hand over the events about users since the last call, oldest first
    pub fn take_events(&mut self) -> (r: Vec<UserEvent>)
        ensures
            r@.map_values(|e: UserEvent| user_event_view(e)) == old(self)@.events,
            final(self)@ == (RoomUsersView { events: Seq::empty(), ..old(self)@ }),
    {
        let mut r: Vec<UserEvent> = Vec::new();
        std::mem::swap(&mut self.events, &mut r);
        assert(self@.events =~= Seq::<(bool, Seq<char>)>::empty());
        r
    }

    /// What the management surface tells about each user
    pub fn infos(&self) -> (r: Vec<(String, UserInfo)>)
        ensures
            r@.len() == self@.users.len(),
            forall|k: int|
                0 <= k < r@.len() ==> (#[trigger] r@[k]).0@ == self@.users[k].id && r@[k].1.audio
                    == self@.users[k].audio,
    {
        let mut r: Vec<(String, UserInfo)> = Vec::new();
        let mut i: usize = 0;
        while i < self.users.len()
            invariant
                i <= self.users.len(),
                r@.len() == i,
                forall|k: int|
                    0 <= k < i ==> (#[trigger] r@[k]).0@ == self@.users[k].id && r@[k].1.audio
                        == self@.users[k].audio,
            decreases self.users.len() - i,
        {
            assert(self@.users[i as int] == self.users@[i as int]@);
            r.push((self.users[i].id.clone(), self.users[i].into_info()));
            i = i + 1;
        }
        r
    }
}

} // verus!
