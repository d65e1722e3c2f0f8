//! What holds of every game, whatever is asked of it and in whatever order.
//!
//! Each law is stated over the mathematical value of a session, which is
//! what the contracts of [`Session`](crate::session::Session) speak of.

use vstd::prelude::*;
use crate::engine::legal_moves;
use crate::notation::canonical;
use crate::session::{Progress, SessionError, SessionView};
use crate::tally::{is_winner, lemma_winner_has_most_votes, lemma_winner_unique, votes_of};

verus! {

/// A player votes once in a round. After an accepted vote of `player`, any
/// further vote of the same player is refused, for whatever move, and leaves
/// the tally and the voters as they were; the accepted vote added exactly one
/// voter and one vote, for the move voted for.
pub proof fn law_one_vote_per_player(
    session: SessionView,
    player: Seq<char>,
    first: Seq<char>,
    second: Seq<char>,
)
    requires
        session.inv(),
        session.vote_refusal(player, first) is None,
    ensures
        session.after_vote_request(player, first).voted.len() == session.voted.len() + 1,
        votes_of(session.after_vote_request(player, first).tally, canonical(first).unwrap())
            == votes_of(session.tally, canonical(first).unwrap()) + 1,
        forall|other: Seq<char>|
            other != canonical(first).unwrap() ==> #[trigger] votes_of(
                session.after_vote_request(player, first).tally,
                other,
            ) == votes_of(session.tally, other),
        session.after_vote_request(player, first).vote_refusal(player, second) is Some,
        (canonical(second) matches Some(text) && legal_moves(session.fen).contains(text))
            ==> session.after_vote_request(player, first).vote_refusal(player, second) == Some(
            SessionError::DuplicateVote,
        ),
        session.after_vote_request(player, first).after_vote_request(player, second)
            == session.after_vote_request(player, first),
{
}

/// A player who has voted in the round is refused, in whatever state the game
/// is: with `DuplicateVote` where the text is a legal move of the position,
/// with `IllegalMove` where it is not. Nothing changes: no count, no
/// candidate, no voter.
pub proof fn law_duplicate_vote_refused(session: SessionView, player: Seq<char>, mv: Seq<char>)
    requires
        session.voted.contains(player),
    ensures
        session.vote_refusal(player, mv) == Some(
            if canonical(mv) matches Some(text) && legal_moves(session.fen).contains(text) {
                SessionError::DuplicateVote
            } else {
                SessionError::IllegalMove
            },
        ),
        session.after_vote_request(player, mv) == session,
{
}

/// A vote never moves a piece, starts a game or ends one: whether it is
/// accepted or refused, the position, the status, the round times and what
/// was published stay.
pub proof fn law_votes_leave_the_board(session: SessionView, player: Seq<char>, mv: Seq<char>)
    ensures
        ({
            let after = session.after_vote_request(player, mv);
            &&& after.fen == session.fen
            &&& after.status == session.status
            &&& after.round_start == session.round_start
            &&& after.round_deadline == session.round_deadline
            &&& after.generation == session.generation
            &&& after.player_count == session.player_count
        }),
{
}

/// A round is resolved no earlier than one round length after it began, which
/// is at its deadline or later; before that, driving the session changes
/// nothing.
pub proof fn law_round_timing(
    session: SessionView,
    now: u64,
    after: SessionView,
    result: Result<Progress, SessionError>,
)
    requires
        session.inv(),
        session.status is Ongoing,
        session.advanced_to(now, after, result),
    ensures
        session.round_start is Some,
        session.round_deadline is Some,
        (result matches Ok(Progress::Played(_))) || (result matches Ok(Progress::Ended(_)))
            ==> now >= session.round_start.unwrap() + session.config.round_millis && now
            >= session.round_deadline.unwrap(),
        now < session.round_deadline.unwrap() ==> after == session && (result matches Ok(
            Progress::NotDue,
        )),
{
}

/// The next round begins at the time of the resolution, which is not before
/// the deadline of the round resolved, and it lasts one round length: its
/// deadline is no earlier than one round length after the old deadline, and
/// exactly that where the round was resolved at its deadline.
pub proof fn law_next_round(
    session: SessionView,
    now: u64,
    after: SessionView,
    result: Result<Progress, SessionError>,
)
    requires
        session.inv(),
        now + session.config.round_millis <= u64::MAX,
        session.advanced_to(now, after, result),
        result matches Ok(Progress::Played(_)),
    ensures
        after.status is Ongoing,
        after.round_start == Some(now),
        now >= session.round_deadline.unwrap(),
        after.round_deadline is Some,
        after.round_deadline.unwrap() == now + session.config.round_millis,
        after.round_deadline.unwrap() >= session.round_deadline.unwrap()
            + session.config.round_millis,
        now == session.round_deadline.unwrap() ==> after.round_deadline.unwrap()
            == session.round_deadline.unwrap() + session.config.round_millis,
{
}

/// The move that resolves a round is legal in the position in which the
/// round was held. Where somebody voted it is the one winner of the vote: no
/// candidate has more votes, and none with as many votes comes before it in
/// the dictionary.
pub proof fn law_applied_move(
    session: SessionView,
    now: u64,
    after: SessionView,
    result: Result<Progress, SessionError>,
    mv: Seq<char>,
    other: Seq<char>,
)
    requires
        session.inv(),
        session.advanced_to(now, after, result),
        match result {
            Ok(Progress::Played(played)) => played@ == mv,
            Ok(Progress::Ended(played)) => played@ == mv,
            _ => false,
        },
    ensures
        legal_moves(session.fen).contains(mv),
        session.tally.contains_key(other) ==> is_winner(session.tally, mv) && session.tally[other]
            <= session.tally[mv] && (is_winner(session.tally, other) ==> other == mv),
{
    if session.tally.contains_key(other) {
        assert(session.tally != Map::<Seq<char>, nat>::empty());
        lemma_winner_has_most_votes(session.tally, mv, other);
        if is_winner(session.tally, other) {
            lemma_winner_unique(session.tally, mv, other);
        }
    }
}

/// A game that is over is read-only: no vote and no passing of time changes
/// anything, and a subscriber who joins leaves the position, the tally, the
/// voters and the status as they are.
pub proof fn law_terminal_is_final(
    session: SessionView,
    player: Seq<char>,
    mv: Seq<char>,
    now: u64,
    after: SessionView,
    result: Result<Progress, SessionError>,
)
    requires
        session.status.spec_is_terminal(),
    ensures
        session.vote_refusal(player, mv) is Some,
        session.after_vote_request(player, mv) == session,
        session.advanced_to(now, after, result) ==> after == session && (result matches Ok(
            Progress::Over,
        )),
        session.joined().fen == session.fen,
        session.joined().tally == session.tally,
        session.joined().voted == session.voted,
        session.joined().status == session.status,
{
}

/// The status only moves forward, from `Waiting` to `Ongoing` and from there
/// to a terminal value: whatever is asked of a session, its status stays or
/// takes one such step.
pub proof fn law_status_moves_forward(
    session: SessionView,
    player: Seq<char>,
    mv: Seq<char>,
    now: u64,
    after: SessionView,
    result: Result<Progress, SessionError>,
)
    ensures
        session.status.may_become(session.after_vote_request(player, mv).status),
        session.status.may_become(session.joined().status),
        session.advanced_to(now, after, result) ==> session.status.may_become(after.status),
{
}

/// Only the resolution of a round changes the position, and it changes it
/// only where the game goes on: to the position after the move played.
pub proof fn law_position_changes_by_resolution(
    session: SessionView,
    now: u64,
    after: SessionView,
    result: Result<Progress, SessionError>,
)
    requires
        session.advanced_to(now, after, result),
    ensures
        match result {
            Ok(Progress::Played(mv)) => after.fen == crate::engine::position_after(session.fen, mv@),
            _ => after.fen == session.fen,
        },
        session.joined().fen == session.fen,
{
}

} // verus!
