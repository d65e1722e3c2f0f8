//! The board engine: positions, and the calls into the `chess` crate.
//!
//! A [`Position`] carries a `chess::Board` through the game. This crate never
//! looks inside a board: what it knows of one is its text in Forsyth-Edwards
//! notation, which is the view of a position, and what the `chess` crate
//! answers when asked about it. Those answers are functions of that text, and
//! the contracts name them: [`legal_moves`], [`position_after`],
//! [`status_of`] and [`side_to_move_of`].
//!
//! A move is written in the coordinate notation of the `chess` crate: the
//! source square, the destination square and, for a promotion, the letter of
//! the new piece (`e2e4`, `e7e8q`).

use vstd::prelude::*;
use crate::notation::canonical;
use crate::status::{BoardState, Team};
use rand::seq::IteratorRandom;
use std::str::FromStr;

verus! {

#[verifier::external_type_specification]
#[verifier::external_body]
pub struct ExBoard(chess::Board);

/// The text that the `chess` crate writes for a board.
pub uninterp spec fn board_fen(board: chess::Board) -> Seq<char>;

/// The legal moves of the position with the given text, each in coordinate
/// notation, in the order in which the `chess` crate lists them.
pub uninterp spec fn legal_moves(fen: Seq<char>) -> Seq<Seq<char>>;

/// The text of the position reached by playing `mv` in the position `fen`.
pub uninterp spec fn position_after(fen: Seq<char>, mv: Seq<char>) -> Seq<char>;

/// Whether the game goes on in the position `fen`, or is a stalemate or a
/// checkmate.
pub uninterp spec fn status_of(fen: Seq<char>) -> BoardState;

/// The side whose turn it is in the position `fen`.
pub uninterp spec fn side_to_move_of(fen: Seq<char>) -> Team;

/// The text of the initial position of chess.
pub open spec fn initial_fen() -> Seq<char> {
    "rnbqkbnr/pppppppp/8/8/8/8/PPPPPPPP/RNBQKBNR w KQkq - 0 1"@
}

/// `chess::Board::default`: the initial position. Its text is the one the
/// `chess` crate builds it from, and its documentation counts 20 legal moves
/// there.
#[verifier::external_body]
fn engine_initial() -> (board: chess::Board)
    ensures
        board_fen(board) == initial_fen(),
        legal_moves(board_fen(board)).len() == 20,
{
    chess::Board::default()
}

/// The `Display` of `chess::Board`: the text of the board.
#[verifier::external_body]
fn engine_fen(board: &chess::Board) -> (fen: String)
    ensures
        fen@ == board_fen(*board),
{
    board.to_string()
}

/// The texts of a list of strings.
pub open spec fn texts_of(list: Seq<String>) -> Seq<Seq<char>> {
    list.map_values(|text: String| text@)
}

/// `chess::MoveGen::new_legal`: the legal moves of the board, each written
/// by the `Display` of `chess::ChessMove`, in the order in which the
/// generator yields them.
#[verifier::external_body]
fn engine_moves(board: &chess::Board) -> (moves: Vec<String>)
    ensures
        texts_of(moves@) == legal_moves(board_fen(*board)),
{
    chess::MoveGen::new_legal(board).map(|chess_move| chess_move.to_string()).collect()
}

/// `chess::ChessMove::from_str`, then `chess::Board::legal`: whether the
/// text reads as a move that the `chess` crate lists among the legal moves of
/// the board. A text that does not read as a move is no legal move.
#[verifier::external_body]
fn engine_legal(board: &chess::Board, mv: &str) -> (legal: bool)
    ensures
        legal == match canonical(mv@) {
            Some(text) => legal_moves(board_fen(*board)).contains(text),
            None => false,
        },
{
    match chess::ChessMove::from_str(mv) {
        Ok(chess_move) => board.legal(chess_move),
        Err(_) => false,
    }
}

/// `chess::Board::make_move_new`: the board after a move. The `chess` crate
/// panics or answers nonsense for a move that is not legal, so only a legal
/// move, in the notation of [`legal_moves`], is admitted.
#[verifier::external_body]
fn engine_apply(board: &chess::Board, mv: &str) -> (next: chess::Board)
    requires
        legal_moves(board_fen(*board)).contains(mv@),
    ensures
        board_fen(next) == position_after(board_fen(*board), mv@),
{
    match chess::ChessMove::from_str(mv) {
        Ok(chess_move) => board.make_move_new(chess_move),
        Err(_) => *board,
    }
}

/// `chess::Board::status`. Its source counts the legal moves: the game goes
/// on exactly when there is one.
#[verifier::external_body]
fn engine_status(board: &chess::Board) -> (state: BoardState)
    ensures
        state == status_of(board_fen(*board)),
        (state is Ongoing) == (legal_moves(board_fen(*board)).len() > 0),
{
    match board.status() {
        chess::BoardStatus::Ongoing => BoardState::Ongoing,
        chess::BoardStatus::Stalemate => BoardState::Stalemate,
        chess::BoardStatus::Checkmate => BoardState::Checkmate,
    }
}

/// `chess::Board::side_to_move`.
#[verifier::external_body]
fn engine_side_to_move(board: &chess::Board) -> (side: Team)
    ensures
        side == side_to_move_of(board_fen(*board)),
{
    match board.side_to_move() {
        chess::Color::White => Team::White,
        chess::Color::Black => Team::Black,
    }
}

/// `rand::seq::IteratorRandom::choose` over the range of the numbers below
/// `len`, with the thread's generator: one of those numbers, or nothing when,
/// and only when, there is none. Which one is left to chance.
#[verifier::external_body]
fn random_index(len: usize) -> (index: Option<usize>)
    ensures
        match index {
            Some(i) => i < len,
            None => len == 0,
        },
{
    (0..len).choose(&mut rand::thread_rng())
}

/// A position of the game.
#[derive(Clone, Copy)]
pub struct Position {
    board: chess::Board,
}

impl View for Position {
    type V = Seq<char>;

    closed spec fn view(&self) -> Seq<char> {
        board_fen(self.board)
    }
}

impl Position {
    /// The initial position of chess.
    pub fn initial() -> (position: Position)
        ensures
            position@ == initial_fen(),
            legal_moves(position@).len() == 20,
    {
        Position { board: engine_initial() }
    }

    /// The position as text.
    pub fn fen(&self) -> (fen: String)
        ensures
            fen@ == self@,
    {
        engine_fen(&self.board)
    }

    /// The legal moves of this position.
    pub fn legal_moves(&self) -> (moves: Vec<String>)
        ensures
            texts_of(moves@) == legal_moves(self@),
    {
        engine_moves(&self.board)
    }

    /// Whether `mv` is a legal move here.
    pub open spec fn allows(&self, mv: Seq<char>) -> bool {
        legal_moves(self@).contains(mv)
    }

    /// Whether the text `mv` reads as a legal move of this position.
    pub fn is_legal(&self, mv: &str) -> (legal: bool)
        ensures
            legal == match canonical(mv@) {
                Some(text) => self.allows(text),
                None => false,
            },
    {
        engine_legal(&self.board, mv)
    }

    /// The position after the legal move `mv`.
    pub fn play(&self, mv: &str) -> (next: Position)
        requires
            self.allows(mv@),
        ensures
            next@ == position_after(self@, mv@),
    {
        Position { board: engine_apply(&self.board, mv) }
    }

    /// Whether the game goes on here. It does exactly when there is a legal
    /// move.
    pub fn status(&self) -> (state: BoardState)
        ensures
            state == status_of(self@),
            (state is Ongoing) == (legal_moves(self@).len() > 0),
    {
        engine_status(&self.board)
    }

    /// The side whose turn it is.
    pub fn side_to_move(&self) -> (side: Team)
        ensures
            side == side_to_move_of(self@),
    {
        engine_side_to_move(&self.board)
    }

    /// A legal move picked at random among those that the position lists,
    /// or nothing where there is none.
    pub fn pick_random_move(&self) -> (chosen: Option<String>)
        ensures
            match chosen {
                Some(mv) => self.allows(mv@),
                None => legal_moves(self@).len() == 0,
            },
    {
        let moves = self.legal_moves();
        match random_index(moves.len()) {
            Some(i) => {
                let mv = moves[i].clone();
                assert(texts_of(moves@)[i as int] == mv@);
                Some(mv)
            },
            None => None,
        }
    }
}

} // verus!
