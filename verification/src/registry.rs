//! All the games of the process, by identifier.
//!
//! Games are created and found, never removed. Every request of a player
//! names its game and is handed on to it here; a request for a game that
//! does not exist is answered with `SessionNotFound` and changes nothing.

use vstd::prelude::*;
use crate::keyed::{
    distinct_keys, index_of_key, keyed_map, lemma_keyed_index, lemma_keyed_push,
    lemma_keyed_update,
};
use crate::session::{
    Progress, Session, SessionConfig, SessionError, SessionView, StateUpdate, Subscription,
};
use crate::status::Team;
use rand::Rng;

verus! {

/// Whether `letter` is an ASCII letter or digit.
pub open spec fn is_alphanumeric(letter: char) -> bool {
    ('a' <= letter <= 'z') || ('A' <= letter <= 'Z') || ('0' <= letter <= '9')
}

/// Whether `id` is written as the identifiers that the registry makes up:
/// with six ASCII letters and digits.
pub open spec fn is_game_id(id: Seq<char>) -> bool {
    &&& id.len() == 6
    &&& forall|i: int| 0 <= i < id.len() ==> is_alphanumeric(#[trigger] id[i])
}

/// `rand::Rng::sample_iter` on the thread's generator with the distribution
/// `rand::distributions::Alphanumeric`, which yields ASCII letters and digits:
/// six of them, as a text. Which ones is left to chance.
#[verifier::external_body]
fn random_game_id() -> (id: String)
    ensures
        is_game_id(id@),
{
    let letters = rand::thread_rng().sample_iter(rand::distributions::Alphanumeric);
    letters.take(6).map(char::from).collect()
}

spec fn session_id() -> spec_fn(Session) -> Seq<char> {
    |session: Session| session@.id
}

spec fn session_value() -> spec_fn(Session) -> SessionView {
    |session: Session| session@
}

spec fn games_of(sessions: Seq<Session>) -> Map<Seq<char>, SessionView> {
    keyed_map(sessions, session_id(), session_value())
}

/// A registry as a mathematical value.
pub struct RegistryView {
    /// The configuration that every game of the registry has.
    pub config: SessionConfig,
    /// The games by identifier.
    pub games: Map<Seq<char>, SessionView>,
}

impl RegistryView {
    /// Whether the game `id` can be driven at the time `now`. A game that
    /// does not exist can be asked for at any time.
    pub open spec fn admits(self, id: Seq<char>, now: u64) -> bool {
        self.games.contains_key(id) ==> self.games[id].admits(now)
    }

    /// Whether driving the game `id` at the time `now` may leave the registry
    /// `after` with the answer `result`: a game that does not exist is not
    /// found and nothing changes; a game that exists is driven as a session
    /// is, and every other game stays.
    pub open spec fn advanced_to(
        self,
        id: Seq<char>,
        now: u64,
        after: RegistryView,
        result: Result<Progress, SessionError>,
    ) -> bool {
        if self.games.contains_key(id) {
            &&& after.config == self.config
            &&& after.games.contains_key(id)
            &&& after.games == self.games.insert(id, after.games[id])
            &&& self.games[id].advanced_to(now, after.games[id], result)
        } else {
            &&& result == Err::<Progress, SessionError>(SessionError::SessionNotFound)
            &&& after == self
        }
    }
}

/// The games of the process.
pub struct Registry {
    config: SessionConfig,
    sessions: Vec<Session>,
}

impl View for Registry {
    type V = RegistryView;

    closed spec fn view(&self) -> RegistryView {
        RegistryView { config: self.config, games: games_of(self.sessions@) }
    }
}

impl Registry {
    /// No identifier names two games, and every game is well formed and has
    /// the configuration of the registry.
    pub closed spec fn wf(&self) -> bool {
        &&& distinct_keys(self.sessions@, session_id())
        &&& forall|i: int|
            0 <= i < self.sessions.len() ==> (#[trigger] self.sessions[i]).wf()
                && self.sessions[i]@.config == self.config
    }

    /// Every game is filed under its own identifier, has the configuration of
    /// the registry and meets the invariant of sessions.
    pub proof fn lemma_games(&self, id: Seq<char>)
        requires
            self.wf(),
            self@.games.contains_key(id),
        ensures
            self@.games[id].id == id,
            self@.games[id].config == self@.config,
            self@.games[id].inv(),
    {
        let i = index_of_key(self.sessions@, session_id(), id);
        lemma_keyed_index(self.sessions@, session_id(), session_value(), i);
        self.sessions[i].lemma_wf_inv();
    }

    /// A registry without games.
    pub fn new(config: SessionConfig) -> (registry: Registry)
        ensures
            registry.wf(),
            registry@ == (RegistryView { config, games: Map::empty() }),
    {
        let registry = Registry { config, sessions: Vec::new() };
        assert(registry@.games =~= Map::<Seq<char>, SessionView>::empty());
        registry
    }

    /// The configuration that every game of this registry has.
    pub fn config(&self) -> (config: SessionConfig)
        ensures
            config == self@.config,
    {
        self.config
    }

    fn find(&self, id: &str) -> (found: Option<usize>)
        requires
            self.wf(),
        ensures
            match found {
                Some(i) => i < self.sessions.len() && self.sessions[i as int]@.id == id@
                    && self@.games.contains_key(id@)
                    && self@.games[id@] == self.sessions[i as int]@,
                None => !self@.games.contains_key(id@),
            },
    {
        let key = id.to_owned();
        let mut i: usize = 0;
        while i < self.sessions.len()
            invariant
                i <= self.sessions.len(),
                key@ == id@,
                self.wf(),
                forall|j: int| 0 <= j < i ==> (#[trigger] self.sessions[j])@.id != id@,
            decreases self.sessions.len() - i,
        {
            if *self.sessions[i].id() == key {
                proof {
                    lemma_keyed_index(self.sessions@, session_id(), session_value(), i as int);
                }
                return Some(i);
            }
            i = i + 1;
        }
        None
    }

    /// Creates a game under the identifier `id`, waiting for its players,
    /// unless the identifier is taken.
    pub fn create(&mut self, id: String) -> (result: Result<(), SessionError>)
        requires
            old(self).wf(),
        ensures
            final(self).wf(),
            final(self)@.config == old(self)@.config,
            result == if old(self)@.games.contains_key(id@) {
                Err::<(), SessionError>(SessionError::AlreadyExists)
            } else {
                Ok(())
            },
            final(self)@.games == if old(self)@.games.contains_key(id@) {
                old(self)@.games
            } else {
                old(self)@.games.insert(id@, SessionView::fresh(id@, old(self)@.config))
            },
    {
        match self.find(id.as_str()) {
            Some(_) => Err(SessionError::AlreadyExists),
            None => {
                let session = Session::new(id, self.config);
                proof {
                    lemma_keyed_push(self.sessions@, session, session_id(), session_value());
                }
                self.sessions.push(session);
                Ok(())
            },
        }
    }

    /// Creates a game under an identifier made up at random, and says which.
    /// Where chance hits on an identifier that is taken, nothing is created
    /// and the answer is `AlreadyExists`; that cannot happen while no
    /// identifier of that form is taken.
    pub fn start_game(&mut self) -> (result: Result<String, SessionError>)
        requires
            old(self).wf(),
        ensures
            final(self).wf(),
            final(self)@.config == old(self)@.config,
            match result {
                Ok(id) => is_game_id(id@) && !old(self)@.games.contains_key(id@)
                    && final(self)@.games == old(self)@.games.insert(
                    id@,
                    SessionView::fresh(id@, old(self)@.config),
                ),
                Err(error) => error == SessionError::AlreadyExists && final(self)@ == old(self)@,
            },
            result is Err ==> exists|taken: Seq<char>|
                is_game_id(taken) && #[trigger] old(self)@.games.contains_key(taken),
    {
        let id = random_game_id();
        match self.create(id.clone()) {
            Ok(()) => Ok(id),
            Err(error) => {
                assert(is_game_id(id@) && old(self)@.games.contains_key(id@));
                Err(error)
            },
        }
    }

    /// The game with the identifier `id`, if there is one.
    pub fn get(&self, id: &str) -> (found: Option<&Session>)
        requires
            self.wf(),
        ensures
            match found {
                Some(session) => self@.games.contains_key(id@) && session@ == self@.games[id@]
                    && session.wf(),
                None => !self@.games.contains_key(id@),
            },
    {
        match self.find(id) {
            Some(i) => Some(&self.sessions[i]),
            None => None,
        }
    }

    /// Hands the vote of `player` for the move written `mv` to the game `id`.
    pub fn vote(&mut self, id: &str, player: &str, mv: &str) -> (result: Result<(), SessionError>)
        requires
            old(self).wf(),
        ensures
            final(self).wf(),
            final(self)@.config == old(self)@.config,
            result == if !old(self)@.games.contains_key(id@) {
                Err::<(), SessionError>(SessionError::SessionNotFound)
            } else {
                match old(self)@.games[id@].vote_refusal(player@, mv@) {
                    Some(error) => Err::<(), SessionError>(error),
                    None => Ok(()),
                }
            },
            final(self)@.games == if !old(self)@.games.contains_key(id@) {
                old(self)@.games
            } else {
                old(self)@.games.insert(
                    id@,
                    old(self)@.games[id@].after_vote_request(player@, mv@),
                )
            },
    {
        match self.find(id) {
            None => Err(SessionError::SessionNotFound),
            Some(i) => {
                let result = self.sessions[i].accept_vote(player, mv);
                proof {
                    lemma_keyed_update(
                        old(self).sessions@,
                        self.sessions@,
                        session_id(),
                        session_value(),
                        i as int,
                    );
                }
                result
            },
        }
    }

    /// Lets a subscriber join the game `id` under a label picked at random.
    pub fn subscribe(&mut self, id: &str) -> (result: Result<(Subscription, StateUpdate), SessionError>)
        requires
            old(self).wf(),
        ensures
            final(self).wf(),
            final(self)@.config == old(self)@.config,
            match result {
                Ok(joined) => old(self)@.games.contains_key(id@)
                    && final(self)@.games == old(self)@.games.insert(
                    id@,
                    old(self)@.games[id@].joined(),
                ) && joined.0.seen == final(self)@.games[id@].generation
                    && joined.1@ == final(self)@.games[id@].snapshot(joined.0.team),
                Err(error) => error == SessionError::SessionNotFound
                    && !old(self)@.games.contains_key(
                    id@,
                ) && final(self)@ == old(self)@,
            },
    {
        self.subscribe_as(id, Team::random())
    }

    /// Lets a subscriber with the label `team` join the game `id`.
    pub fn subscribe_as(&mut self, id: &str, team: Team) -> (result: Result<
        (Subscription, StateUpdate),
        SessionError,
    >)
        requires
            old(self).wf(),
        ensures
            final(self).wf(),
            final(self)@.config == old(self)@.config,
            match result {
                Ok(joined) => old(self)@.games.contains_key(id@)
                    && final(self)@.games == old(self)@.games.insert(
                    id@,
                    old(self)@.games[id@].joined(),
                ) && joined.0 == (Subscription { team, seen: final(self)@.games[id@].generation })
                    && joined.1@ == final(self)@.games[id@].snapshot(team),
                Err(error) => error == SessionError::SessionNotFound
                    && !old(self)@.games.contains_key(
                    id@,
                ) && final(self)@ == old(self)@,
            },
    {
        match self.find(id) {
            None => Err(SessionError::SessionNotFound),
            Some(i) => {
                let joined = self.sessions[i].subscribe_as(team);
                proof {
                    lemma_keyed_update(
                        old(self).sessions@,
                        self.sessions@,
                        session_id(),
                        session_value(),
                        i as int,
                    );
                }
                Ok(joined)
            },
        }
    }

    /// What a subscriber of the game `id` is to be sent now.
    pub fn poll(&self, id: &str, subscription: &mut Subscription) -> (result: Result<
        Option<StateUpdate>,
        SessionError,
    >)
        requires
            self.wf(),
        ensures
            match result {
                Ok(update) => self@.games.contains_key(id@)
                    && *final(subscription) == (Subscription {
                    team: old(subscription).team,
                    seen: self@.games[id@].generation,
                }) && match update {
                    Some(state) => old(subscription).seen != self@.games[id@].generation && state@
                        == self@.games[id@].snapshot(old(subscription).team),
                    None => old(subscription).seen == self@.games[id@].generation,
                },
                Err(error) => error == SessionError::SessionNotFound
                    && !self@.games.contains_key(id@)
                    && *final(subscription) == *old(subscription),
            },
    {
        match self.find(id) {
            None => Err(SessionError::SessionNotFound),
            Some(i) => Ok(self.sessions[i].poll(subscription)),
        }
    }

    /// Drives the game `id` at the time `now`.
    pub fn advance(&mut self, id: &str, now: u64) -> (result: Result<Progress, SessionError>)
        requires
            old(self).wf(),
            old(self)@.admits(id@, now),
        ensures
            final(self).wf(),
            old(self)@.advanced_to(id@, now, final(self)@, result),
    {
        match self.find(id) {
            None => Err(SessionError::SessionNotFound),
            Some(i) => {
                let result = self.sessions[i].advance(now);
                proof {
                    lemma_keyed_update(
                        old(self).sessions@,
                        self.sessions@,
                        session_id(),
                        session_value(),
                        i as int,
                    );
                }
                result
            },
        }
    }

    /// Drives the game `id` at the time `now` if it can be driven then, as
    /// [`Registry::advance`] does, and does nothing if not.
    pub fn try_advance(&mut self, id: &str, now: u64) -> (result: Option<
        Result<Progress, SessionError>,
    >)
        requires
            old(self).wf(),
        ensures
            final(self).wf(),
            match result {
                Some(answer) => old(self)@.admits(id@, now) && old(self)@.advanced_to(
                    id@,
                    now,
                    final(self)@,
                    answer,
                ),
                None => !old(self)@.admits(id@, now) && final(self)@ == old(self)@,
            },
    {
        let admits = match self.find(id) {
            Some(i) => self.sessions[i].admits(now),
            None => true,
        };
        if admits {
            Some(self.advance(id, now))
        } else {
            None
        }
    }
}

} // verus!
