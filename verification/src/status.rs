//! The small enumerations shared by the whole crate.

use vstd::prelude::*;
use rand::Rng;

verus! {

/// `rand::Rng::gen_range` on the thread's generator, over the range from 0
/// up to `bound`, which it leaves out: a number below `bound`, picked at
/// random. The `rand` crate panics on an empty range, so `bound` is not 0.
#[verifier::external_body]
fn random_below(bound: u32) -> (index: u32)
    requires
        bound > 0,
    ensures
        index < bound,
{
    rand::thread_rng().gen_range(0..bound)
}

/// One of the two sides of the board. It names the side to move of a
/// position, and it is the label handed to each subscriber.
#[derive(Clone, Copy, Debug, PartialEq, Eq, Structural)]
pub enum Team {
    White,
    Black,
}

/// Where a game stands. `Waiting` and `Ongoing` are the live states, the
/// other three are terminal.
#[derive(Clone, Copy, Debug, PartialEq, Eq, Structural)]
pub enum GameStatus {
    Waiting,
    Ongoing,
    WhiteWon,
    BlackWon,
    Draw,
}

/// What the rules of chess say of a position taken alone.
#[derive(Clone, Copy, Debug, PartialEq, Eq, Structural)]
pub enum BoardState {
    Ongoing,
    Stalemate,
    Checkmate,
}

impl Team {
    /// The label with the given index: index 0 is white, every other index
    /// is black.
    pub open spec fn spec_from_index(index: u32) -> Team {
        if index == 0 {
            Team::White
        } else {
            Team::Black
        }
    }

    #[verifier::when_used_as_spec(spec_from_index)]
    pub fn from_index(index: u32) -> (team: Team)
        ensures
            team == Team::spec_from_index(index),
    {
        if index == 0 {
            Team::White
        } else {
            Team::Black
        }
    }

    /// The label as it is written for subscribers.
    pub open spec fn spec_name(self) -> Seq<char> {
        match self {
            Team::White => "white"@,
            Team::Black => "black"@,
        }
    }

    pub fn name(self) -> (name: &'static str)
        ensures
            name@ == self.spec_name(),
    {
        match self {
            Team::White => "white",
            Team::Black => "black",
        }
    }

    /// A label picked at random: the one with an index below 2 that chance
    /// gives.
    pub fn random() -> (team: Team)
        ensures
            exists|index: u32| index < 2 && team == Team::spec_from_index(index),
    {
        Team::from_index(random_below(2))
    }

    /// The other side.
    pub open spec fn spec_opponent(self) -> Team {
        match self {
            Team::White => Team::Black,
            Team::Black => Team::White,
        }
    }

    #[verifier::when_used_as_spec(spec_opponent)]
    pub fn opponent(self) -> (team: Team)
        ensures
            team == self.spec_opponent(),
    {
        match self {
            Team::White => Team::Black,
            Team::Black => Team::White,
        }
    }
}

impl GameStatus {
    /// The status as it is written for subscribers.
    pub open spec fn spec_name(self) -> Seq<char> {
        match self {
            GameStatus::Waiting => "waiting"@,
            GameStatus::Ongoing => "ongoing"@,
            GameStatus::WhiteWon => "white_win"@,
            GameStatus::BlackWon => "black_win"@,
            GameStatus::Draw => "draw"@,
        }
    }

    pub fn name(self) -> (name: &'static str)
        ensures
            name@ == self.spec_name(),
    {
        match self {
            GameStatus::Waiting => "waiting",
            GameStatus::Ongoing => "ongoing",
            GameStatus::WhiteWon => "white_win",
            GameStatus::BlackWon => "black_win",
            GameStatus::Draw => "draw",
        }
    }

    /// A terminal status is final: the game is over and is read-only.
    pub open spec fn spec_is_terminal(self) -> bool {
        self is WhiteWon || self is BlackWon || self is Draw
    }

    #[verifier::when_used_as_spec(spec_is_terminal)]
    pub fn is_terminal(self) -> (terminal: bool)
        ensures
            terminal == self.spec_is_terminal(),
    {
        match self {
            GameStatus::Waiting => false,
            GameStatus::Ongoing => false,
            _ => true,
        }
    }

    /// The edges of the state machine: `Waiting` to `Ongoing`, `Ongoing` to
    /// one of the terminal values, and staying where one is.
    pub open spec fn may_become(self, next: GameStatus) -> bool {
        self == next || (self is Waiting && next is Ongoing) || (self is Ongoing
            && next.spec_is_terminal())
    }

    /// The status that a game takes when the position after the move just
    /// played is in state `board`, with `to_move` the side whose turn it would
    /// be: a checkmated side loses, a stalemate is a draw.
    pub open spec fn spec_after_move(board: BoardState, to_move: Team) -> GameStatus {
        match board {
            BoardState::Ongoing => GameStatus::Ongoing,
            BoardState::Stalemate => GameStatus::Draw,
            BoardState::Checkmate => match to_move {
                Team::White => GameStatus::BlackWon,
                Team::Black => GameStatus::WhiteWon,
            },
        }
    }

    #[verifier::when_used_as_spec(spec_after_move)]
    pub fn after_move(board: BoardState, to_move: Team) -> (status: GameStatus)
        ensures
            status == GameStatus::spec_after_move(board, to_move),
    {
        match board {
            BoardState::Ongoing => GameStatus::Ongoing,
            BoardState::Stalemate => GameStatus::Draw,
            BoardState::Checkmate => match to_move {
                Team::White => GameStatus::BlackWon,
                Team::Black => GameStatus::WhiteWon,
            },
        }
    }
}

} // verus!
