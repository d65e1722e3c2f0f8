//! One game: its position, its status, the votes of the current round and
//! the round's timing, with the state machine that drives the rounds.
//!
//! A session never waits and never reads a clock. Whoever drives it hands it
//! the time, in milliseconds on a clock of their choice, and acts on what
//! [`Session::advance`] answers: wait for players, sleep until the deadline,
//! tell the subscribers, or stop.

use vstd::prelude::*;
use crate::engine::{legal_moves, position_after, side_to_move_of, status_of, initial_fen, Position};
use crate::notation::{canonical, normalize_move};
use crate::status::{GameStatus, Team};
use crate::tally::{is_winner, with_vote, VoteTally};

verus! {

/// Why a request was turned down.
#[derive(Clone, Copy, Debug, PartialEq, Eq, Structural)]
pub enum SessionError {
    /// No game has the given identifier.
    SessionNotFound,
    /// The text is no move or the move is not legal in the current position;
    /// or the game is over, and nothing else speaks against the vote.
    IllegalMove,
    /// The player has voted in this round already.
    DuplicateVote,
    /// A game with the given identifier exists already.
    AlreadyExists,
    /// The game waits for more players.
    InsufficientPlayers,
}

/// What is fixed for the whole life of a game.
#[derive(Clone, Copy, Debug, PartialEq, Eq, Structural)]
pub struct SessionConfig {
    /// The length of a round, in milliseconds.
    pub round_millis: u64,
    /// How many subscribers a game waits for before its first round.
    pub players_required: u32,
}

impl SessionConfig {
    /// Rounds of ten seconds, starting as soon as one player has joined.
    pub fn standard() -> (config: SessionConfig)
        ensures
            config == (SessionConfig { round_millis: 10_000, players_required: 1 }),
    {
        SessionConfig { round_millis: 10_000, players_required: 1 }
    }
}

/// What [`Session::advance`] did.
#[derive(Debug)]
pub enum Progress {
    /// The game left `Waiting`: its first round has begun.
    Started,
    /// The round's deadline lies ahead: nothing was done.
    NotDue,
    /// The round was resolved by playing the move given, and the next round
    /// has begun.
    Played(String),
    /// The round was resolved by the move given, which ends the game.
    Ended(String),
    /// The game was over already: nothing was done.
    Over,
}

/// The generation after `generation`. It starts again from 0 after the
/// largest number.
pub open spec fn next_generation(generation: u64) -> u64 {
    if generation == u64::MAX {
        0
    } else {
        (generation + 1) as u64
    }
}

/// One more than `count`, as far as the numbers go.
pub open spec fn one_more(count: u32) -> u32 {
    if count == u32::MAX {
        count
    } else {
        (count + 1) as u32
    }
}

/// What a subscriber is sent: the state of a game at one moment.
#[derive(Debug)]
pub struct StateUpdate {
    /// The position as text.
    pub fen: String,
    /// How many votes were cast in the current round.
    pub votes: u64,
    /// The label of the subscriber.
    pub team: Team,
    /// When the current round began.
    pub start_time: Option<u64>,
    /// When the current round ends.
    pub deadline: Option<u64>,
    pub status: GameStatus,
}

/// A [`StateUpdate`] as a mathematical value.
pub struct StateUpdateView {
    pub fen: Seq<char>,
    pub votes: nat,
    pub team: Team,
    pub start_time: Option<u64>,
    pub deadline: Option<u64>,
    pub status: GameStatus,
}

impl View for StateUpdate {
    type V = StateUpdateView;

    open spec fn view(&self) -> StateUpdateView {
        StateUpdateView {
            fen: self.fen@,
            votes: self.votes as nat,
            team: self.team,
            start_time: self.start_time,
            deadline: self.deadline,
            status: self.status,
        }
    }
}

/// What a subscriber keeps: its label, and the generation of the state it was
/// last sent.
#[derive(Clone, Copy, Debug, PartialEq, Eq, Structural)]
pub struct Subscription {
    pub team: Team,
    pub seen: u64,
}

/// A session as a mathematical value.
pub struct SessionView {
    pub id: Seq<char>,
    pub config: SessionConfig,
    /// The position, as text.
    pub fen: Seq<char>,
    pub status: GameStatus,
    pub player_count: u32,
    /// The votes of each candidate move in the current round.
    pub tally: Map<Seq<char>, nat>,
    /// The players who have voted in the current round.
    pub voted: Set<Seq<char>>,
    pub round_start: Option<u64>,
    pub round_deadline: Option<u64>,
    /// How often the state was published.
    pub generation: u64,
}

impl SessionView {
    /// A new game: it waits for players in the initial position.
    pub open spec fn fresh(id: Seq<char>, config: SessionConfig) -> SessionView {
        SessionView {
            id,
            config,
            fen: initial_fen(),
            status: GameStatus::Waiting,
            player_count: 0,
            tally: Map::empty(),
            voted: Set::empty(),
            round_start: None,
            round_deadline: None,
            generation: 0,
        }
    }

    /// Why a vote of `player` for the text `mv` is turned down, or `None`
    /// where it is accepted. The move is looked at first, the voter second
    /// and the state of the game last: a vote that nothing else speaks
    /// against is refused as `IllegalMove` once the game is over, since no
    /// move is played any more.
    pub open spec fn vote_refusal(self, player: Seq<char>, mv: Seq<char>) -> Option<SessionError> {
        match canonical(mv) {
            None => Some(SessionError::IllegalMove),
            Some(text) => if !legal_moves(self.fen).contains(text) {
                Some(SessionError::IllegalMove)
            } else if self.voted.contains(player) {
                Some(SessionError::DuplicateVote)
            } else if self.status.spec_is_terminal() {
                Some(SessionError::IllegalMove)
            } else {
                None
            },
        }
    }

    /// The session after the vote of `player` for the move `mv`.
    pub open spec fn with_vote(self, player: Seq<char>, mv: Seq<char>) -> SessionView {
        SessionView { tally: with_vote(self.tally, mv), voted: self.voted.insert(player), ..self }
    }

    /// The session after a request to vote: changed by an accepted vote,
    /// untouched by a refused one.
    pub open spec fn after_vote_request(self, player: Seq<char>, mv: Seq<char>) -> SessionView {
        match self.vote_refusal(player, mv) {
            None => self.with_vote(player, canonical(mv).unwrap()),
            Some(_) => self,
        }
    }

    /// The session after one more subscriber has joined.
    pub open spec fn joined(self) -> SessionView {
        SessionView {
            player_count: one_more(self.player_count),
            generation: next_generation(self.generation),
            ..self
        }
    }

    /// Whether enough players have joined for the first round.
    pub open spec fn ready(self) -> bool {
        self.player_count >= self.config.players_required
    }

    /// The session after its first round has begun at the time `now`.
    pub open spec fn started(self, now: u64) -> SessionView {
        SessionView {
            status: GameStatus::Ongoing,
            round_start: Some(now),
            round_deadline: Some((now + self.config.round_millis) as u64),
            generation: next_generation(self.generation),
            ..self
        }
    }

    /// Whether driving the session at the time `now` may begin a round: the
    /// first one, where the game waits and enough players have joined, or the
    /// next one, where the current round is due. Only then is a deadline
    /// computed from `now`.
    pub open spec fn may_begin_round(self, now: u64) -> bool {
        (self.status is Waiting && self.ready()) || (self.status is Ongoing && self.due(now))
    }

    /// Whether the session can be driven at the time `now`: where a round
    /// may begin at `now`, its deadline, one round length later, is a time
    /// that can be written down.
    pub open spec fn admits(self, now: u64) -> bool {
        self.may_begin_round(now) ==> now + self.config.round_millis <= u64::MAX
    }

    /// Whether the current round may be resolved at the time `now`: not
    /// before its deadline.
    pub open spec fn due(self, now: u64) -> bool {
        self.round_deadline matches Some(deadline) && deadline <= now
    }

    /// Whether `mv` is the move to play when the round is resolved: the
    /// winner of the vote or, where nobody voted, the fallback.
    pub open spec fn chooses(self, mv: Seq<char>, fallback: Option<Seq<char>>) -> bool {
        if self.tally == Map::<Seq<char>, nat>::empty() {
            fallback == Some(mv)
        } else {
            is_winner(self.tally, mv)
        }
    }

    /// The status that the game has once `mv` is played.
    pub open spec fn status_after(self, mv: Seq<char>) -> GameStatus {
        let next = position_after(self.fen, mv);
        GameStatus::spec_after_move(status_of(next), side_to_move_of(next))
    }

    /// The session after its round was resolved at the time `now` by the
    /// move `mv`. Where the move ends the game, the status says so, the round
    /// times are cleared and everything else stays. Where the game goes on,
    /// the position after the move is adopted, the votes are forgotten and a
    /// round begins at `now`. Either way the state is published.
    pub open spec fn resolved(self, now: u64, mv: Seq<char>) -> SessionView {
        let status = self.status_after(mv);
        if status is Ongoing {
            SessionView {
                fen: position_after(self.fen, mv),
                tally: Map::empty(),
                voted: Set::empty(),
                round_start: Some(now),
                round_deadline: Some((now + self.config.round_millis) as u64),
                generation: next_generation(self.generation),
                ..self
            }
        } else {
            SessionView {
                status,
                round_start: None,
                round_deadline: None,
                generation: next_generation(self.generation),
                ..self
            }
        }
    }

    /// Whether driving this session at the time `now` may leave the session
    /// `after` with the answer `result`.
    ///
    /// The move that resolves a round is the winner of the vote; where nobody
    /// voted it is some legal move.
    pub open spec fn advanced_to(
        self,
        now: u64,
        after: SessionView,
        result: Result<Progress, SessionError>,
    ) -> bool {
        match result {
            Err(error) => error == SessionError::InsufficientPlayers && self.status is Waiting
                && !self.ready() && after == self,
            Ok(Progress::Started) => self.status is Waiting && self.ready() && after
                == self.started(now),
            Ok(Progress::NotDue) => self.status is Ongoing && !self.due(now) && after == self,
            Ok(Progress::Played(mv)) => self.status is Ongoing && self.due(now)
                && self.may_play(mv@) && self.status_after(mv@) is Ongoing && after
                == self.resolved(now, mv@),
            Ok(Progress::Ended(mv)) => self.status is Ongoing && self.due(now) && self.may_play(
                mv@,
            ) && self.status_after(mv@).spec_is_terminal() && after == self.resolved(now, mv@),
            Ok(Progress::Over) => self.status.spec_is_terminal() && after == self,
        }
    }

    /// Whether `mv` may be the move that resolves the round: it is legal,
    /// and where somebody voted it is the winner of the vote.
    pub open spec fn may_play(self, mv: Seq<char>) -> bool {
        &&& legal_moves(self.fen).contains(mv)
        &&& self.tally != Map::<Seq<char>, nat>::empty() ==> is_winner(self.tally, mv)
    }

    /// What a subscriber with the label `team` is sent of this state.
    pub open spec fn snapshot(self, team: Team) -> StateUpdateView {
        StateUpdateView {
            fen: self.fen,
            votes: self.voted.len(),
            team,
            start_time: self.round_start,
            deadline: self.round_deadline,
            status: self.status,
        }
    }

    /// What holds of every session: the round times are there exactly while
    /// the game is going on, the deadline is one round after the start, every
    /// candidate move is legal in the position, every candidate has a vote,
    /// and a game that is not over has a legal move.
    pub open spec fn inv(self) -> bool {
        &&& self.status is Ongoing ==> self.round_start is Some && self.round_deadline is Some
            && self.round_deadline.unwrap() == self.round_start.unwrap()
            + self.config.round_millis
        &&& !(self.status is Ongoing) ==> self.round_start is None && self.round_deadline is None
        &&& forall|mv: Seq<char>| #[trigger]
            self.tally.contains_key(mv) ==> legal_moves(self.fen).contains(mv) && self.tally[mv]
                >= 1
        &&& self.voted.finite()
        &&& !self.status.spec_is_terminal() ==> legal_moves(self.fen).len() > 0
    }
}

/// One game.
pub struct Session {
    id: String,
    config: SessionConfig,
    position: Position,
    status: GameStatus,
    player_count: u32,
    tally: VoteTally,
    round_start: Option<u64>,
    round_deadline: Option<u64>,
    generation: u64,
}

impl View for Session {
    type V = SessionView;

    closed spec fn view(&self) -> SessionView {
        SessionView {
            id: self.id@,
            config: self.config,
            fen: self.position@,
            status: self.status,
            player_count: self.player_count,
            tally: self.tally.counts(),
            voted: self.tally.voters(),
            round_start: self.round_start,
            round_deadline: self.round_deadline,
            generation: self.generation,
        }
    }
}

impl Session {
    /// The session is well formed: its tally is, and its value meets
    /// [`SessionView::inv`].
    pub closed spec fn wf(&self) -> bool {
        &&& self.tally.wf()
        &&& self@.inv()
    }

    /// What is well formed meets the invariant of the model.
    pub proof fn lemma_wf_inv(&self)
        requires
            self.wf(),
        ensures
            self@.inv(),
    {
    }

    /// A new game with the given identifier.
    pub fn new(id: String, config: SessionConfig) -> (session: Session)
        ensures
            session.wf(),
            session@ == SessionView::fresh(id@, config),
    {
        let session = Session {
            id,
            config,
            position: Position::initial(),
            status: GameStatus::Waiting,
            player_count: 0,
            tally: VoteTally::new(),
            round_start: None,
            round_deadline: None,
            generation: 0,
        };
        session
    }

    pub fn id(&self) -> (id: &String)
        ensures
            id@ == self@.id,
    {
        &self.id
    }

    pub fn config(&self) -> (config: SessionConfig)
        ensures
            config == self@.config,
    {
        self.config
    }

    pub fn position(&self) -> (position: Position)
        ensures
            position@ == self@.fen,
    {
        self.position
    }

    pub fn status(&self) -> (status: GameStatus)
        ensures
            status == self@.status,
    {
        self.status
    }

    pub fn player_count(&self) -> (count: u32)
        ensures
            count == self@.player_count,
    {
        self.player_count
    }

    pub fn round_start(&self) -> (start: Option<u64>)
        ensures
            start == self@.round_start,
    {
        self.round_start
    }

    pub fn round_deadline(&self) -> (deadline: Option<u64>)
        ensures
            deadline == self@.round_deadline,
    {
        self.round_deadline
    }

    pub fn generation(&self) -> (generation: u64)
        ensures
            generation == self@.generation,
    {
        self.generation
    }

    /// The votes that the move `mv` has in the current round.
    pub fn votes_for(&self, mv: &str) -> (votes: u64)
        requires
            self.wf(),
        ensures
            votes == crate::tally::votes_of(self@.tally, mv@),
    {
        self.tally.votes_for(mv)
    }

    /// Whether `player` has voted in the current round.
    pub fn has_voted(&self, player: &str) -> (voted: bool)
        requires
            self.wf(),
        ensures
            voted == self@.voted.contains(player@),
    {
        self.tally.has_voted(player)
    }

    /// How many votes were cast in the current round.
    pub fn vote_count(&self) -> (votes: u64)
        requires
            self.wf(),
        ensures
            votes == self@.voted.len(),
    {
        self.tally.voter_count() as u64
    }

    /// Takes the vote of `player` for the move written `mv`, or turns it
    /// down. A vote that is turned down changes nothing.
    pub fn accept_vote(&mut self, player: &str, mv: &str) -> (result: Result<(), SessionError>)
        requires
            old(self).wf(),
        ensures
            final(self).wf(),
            final(self)@ == old(self)@.after_vote_request(player@, mv@),
            result == match old(self)@.vote_refusal(player@, mv@) {
                Some(error) => Err::<(), SessionError>(error),
                None => Ok(()),
            },
            result is Err ==> *final(self) == *old(self),
    {
        match normalize_move(mv) {
            None => Err(SessionError::IllegalMove),
            Some(text) => {
                if !self.position.is_legal(text.as_str()) {
                    return Err(SessionError::IllegalMove);
                }
                if self.tally.has_voted(player) {
                    return Err(SessionError::DuplicateVote);
                }
                if self.status.is_terminal() {
                    return Err(SessionError::IllegalMove);
                }
                proof {
                    self.tally.lemma_counts_positive();
                }
                self.tally.record(player.to_owned(), text);
                proof {
                    self.tally.lemma_counts_positive();
                }
                Ok(())
            },
        }
    }

    /// The state as a subscriber with the label `team` is sent it.
    pub fn state_update(&self, team: Team) -> (update: StateUpdate)
        requires
            self.wf(),
        ensures
            update@ == self@.snapshot(team),
    {
        StateUpdate {
            fen: self.position.fen(),
            votes: self.vote_count(),
            team,
            start_time: self.round_start,
            deadline: self.round_deadline,
            status: self.status,
        }
    }

    /// Lets a subscriber with the label `team` join: counts it, publishes the
    /// state, and hands out the subscription with the state as it now is.
    pub fn subscribe_as(&mut self, team: Team) -> (joined: (Subscription, StateUpdate))
        requires
            old(self).wf(),
        ensures
            final(self).wf(),
            final(self)@ == old(self)@.joined(),
            joined.0 == (Subscription { team, seen: final(self)@.generation }),
            joined.1@ == final(self)@.snapshot(team),
    {
        if self.player_count < u32::MAX {
            self.player_count = self.player_count + 1;
        }
        self.generation = bump(self.generation);
        let subscription = Subscription { team, seen: self.generation };
        (subscription, self.state_update(team))
    }

    /// Lets a subscriber join under a label picked at random.
    pub fn subscribe(&mut self) -> (joined: (Subscription, StateUpdate))
        requires
            old(self).wf(),
        ensures
            final(self).wf(),
            final(self)@ == old(self)@.joined(),
            joined.0.seen == final(self)@.generation,
            joined.1@ == final(self)@.snapshot(joined.0.team),
    {
        self.subscribe_as(Team::random())
    }

    /// What a subscriber is to be sent now: the latest state if it was
    /// published since the subscriber last saw one, however often, and
    /// nothing otherwise. The subscription is brought up to date.
    pub fn poll(&self, subscription: &mut Subscription) -> (update: Option<StateUpdate>)
        requires
            self.wf(),
        ensures
            *final(subscription) == (Subscription {
                team: old(subscription).team,
                seen: self@.generation,
            }),
            match update {
                Some(state) => old(subscription).seen != self@.generation && state@
                    == self@.snapshot(old(subscription).team),
                None => old(subscription).seen == self@.generation,
            },
    {
        if subscription.seen == self.generation {
            None
        } else {
            subscription.seen = self.generation;
            Some(self.state_update(subscription.team))
        }
    }

    /// Whether enough players have joined for the first round.
    pub fn ready(&self) -> (ready: bool)
        ensures
            ready == self@.ready(),
    {
        self.player_count >= self.config.players_required
    }

    /// Whether driving the session at the time `now` may begin a round. The
    /// deadline of that round is `now` and one round length, which has to be
    /// a time that can be written down.
    pub fn may_begin_round(&self, now: u64) -> (may: bool)
        ensures
            may == self@.may_begin_round(now),
    {
        match self.status {
            GameStatus::Waiting => self.ready(),
            GameStatus::Ongoing => match self.round_deadline {
                Some(deadline) => deadline <= now,
                None => false,
            },
            _ => false,
        }
    }

    /// Whether the session can be driven at the time `now`.
    pub fn admits(&self, now: u64) -> (admits: bool)
        ensures
            admits == self@.admits(now),
    {
        !self.may_begin_round(now) || now <= u64::MAX - self.config.round_millis
    }

    /// Resolves the current round at the time `now`: plays the winner of the
    /// vote or, where nobody voted, the fallback, which the caller picked
    /// among the legal moves.
    pub fn resolve_round(&mut self, now: u64, fallback: Option<String>) -> (progress: Progress)
        requires
            old(self).wf(),
            old(self)@.status is Ongoing,
            old(self)@.due(now),
            now + old(self)@.config.round_millis <= u64::MAX,
            match fallback {
                Some(mv) => legal_moves(old(self)@.fen).contains(mv@),
                None => old(self)@.tally != Map::<Seq<char>, nat>::empty(),
            },
        ensures
            final(self).wf(),
            match progress {
                Progress::Played(mv) => final(self)@.status is Ongoing && old(self)@.chooses(
                    mv@,
                    option_view(fallback),
                ) && final(self)@ == old(self)@.resolved(now, mv@),
                Progress::Ended(mv) => final(self)@.status.spec_is_terminal() && old(self)@.chooses(
                    mv@,
                    option_view(fallback),
                ) && final(self)@ == old(self)@.resolved(now, mv@),
                _ => false,
            },
    {
        let chosen = match self.tally.winner() {
            Some(mv) => mv,
            None => fallback.unwrap(),
        };
        let next = self.position.play(chosen.as_str());
        let status = GameStatus::after_move(next.status(), next.side_to_move());
        self.generation = bump(self.generation);
        match status {
            GameStatus::Ongoing => {
                self.position = next;
                self.tally.clear();
                self.round_start = Some(now);
                self.round_deadline = Some(now + self.config.round_millis);
                Progress::Played(chosen)
            },
            _ => {
                self.status = status;
                self.round_start = None;
                self.round_deadline = None;
                Progress::Ended(chosen)
            },
        }
    }

    /// Drives the game at the time `now`.
    ///
    /// A waiting game begins its first round if enough players have joined,
    /// and says `InsufficientPlayers` if not. A game that is going on resolves
    /// its round if the deadline has come: by the winner of the vote or, where
    /// nobody voted, by a legal move picked at random. A game that is over
    /// stays as it is. Any time is taken where no round can begin; where one
    /// can, its deadline has to fit the clock.
    pub fn advance(&mut self, now: u64) -> (result: Result<Progress, SessionError>)
        requires
            old(self).wf(),
            old(self)@.admits(now),
        ensures
            final(self).wf(),
            old(self)@.advanced_to(now, final(self)@, result),
            (result is Err || (result matches Ok(Progress::NotDue)) || (result matches Ok(
                Progress::Over,
            ))) ==> *final(self) == *old(self),
    {
        match self.status {
            GameStatus::Waiting => {
                if !self.ready() {
                    return Err(SessionError::InsufficientPlayers);
                }
                self.status = GameStatus::Ongoing;
                self.round_start = Some(now);
                self.round_deadline = Some(now + self.config.round_millis);
                self.generation = bump(self.generation);
                assert(self@ == old(self)@.started(now));
                Ok(Progress::Started)
            },
            GameStatus::Ongoing => {
                let due = match self.round_deadline {
                    Some(deadline) => deadline <= now,
                    None => false,
                };
                if !due {
                    return Ok(Progress::NotDue);
                }
                let fallback = if self.tally.is_empty() {
                    self.position.pick_random_move()
                } else {
                    None
                };
                proof {
                    self.tally.lemma_counts_positive();
                }
                Ok(self.resolve_round(now, fallback))
            },
            _ => Ok(Progress::Over),
        }
    }
}

impl Session {
    /// Drives the game at the time `now` if the session can be driven then,
    /// as [`Session::advance`] does, and does nothing if not.
    pub fn try_advance(&mut self, now: u64) -> (result: Option<Result<Progress, SessionError>>)
        requires
            old(self).wf(),
        ensures
            final(self).wf(),
            match result {
                Some(answer) => old(self)@.admits(now) && old(self)@.advanced_to(
                    now,
                    final(self)@,
                    answer,
                ),
                None => !old(self)@.admits(now) && *final(self) == *old(self),
            },
    {
        if self.admits(now) {
            Some(self.advance(now))
        } else {
            None
        }
    }
}

/// The text of a string, where there is one.
pub open spec fn option_view(text: Option<String>) -> Option<Seq<char>> {
    match text {
        Some(text) => Some(text@),
        None => None,
    }
}

/// The generation after `generation`.
fn bump(generation: u64) -> (next: u64)
    ensures
        next == next_generation(generation),
{
    if generation == u64::MAX {
        0
    } else {
        generation + 1
    }
}

} // verus!
