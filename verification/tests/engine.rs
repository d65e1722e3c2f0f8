use ouija_chess::engine::Position;
use ouija_chess::status::{BoardState, Team};

const START: &str = "rnbqkbnr/pppppppp/8/8/8/8/PPPPPPPP/RNBQKBNR w KQkq - 0 1";

fn after(moves: &[&str]) -> Position {
    let mut position = Position::initial();
    for mv in moves {
        assert!(position.is_legal(mv), "{} is not legal", mv);
        position = position.play(mv);
    }
    position
}

#[test]
fn the_initial_position_is_the_one_of_chess() {
    let position = Position::initial();
    assert_eq!(position.fen(), START);
    assert_eq!(position.status(), BoardState::Ongoing);
    assert_eq!(position.side_to_move(), Team::White);
}

#[test]
fn the_initial_position_has_twenty_legal_moves() {
    let position = Position::initial();
    let mut count = 0;
    for from_file in b'a'..=b'h' {
        for from_rank in b'1'..=b'8' {
            for to_file in b'a'..=b'h' {
                for to_rank in b'1'..=b'8' {
                    let text = String::from_utf8(vec![from_file, from_rank, to_file, to_rank]).unwrap();
                    if position.is_legal(&text) {
                        count += 1;
                    }
                }
            }
        }
    }
    assert_eq!(count, 20);
}

#[test]
fn legality_follows_the_rules() {
    let position = Position::initial();
    assert!(position.is_legal("e2e4"));
    assert!(position.is_legal("g1f3"));
    assert!(!position.is_legal("e2e5"));
    assert!(!position.is_legal("e7e5"));
    assert!(!position.is_legal("e1e2"));
}

#[test]
fn a_text_that_is_no_move_is_not_legal() {
    let position = Position::initial();
    assert!(!position.is_legal(""));
    assert!(!position.is_legal("e4"));
    assert!(!position.is_legal("e2e4x"));
    assert!(!position.is_legal("O-O"));
}

#[test]
fn legality_reads_a_text_as_its_canonical_move() {
    let position = Position::initial();
    assert!(position.is_legal("e2e4 now"));
    assert!(!position.is_legal("e2e4q"));
}

#[test]
fn playing_a_move_gives_the_next_position() {
    let position = Position::initial().play("e2e4");
    assert_eq!(position.fen(), "rnbqkbnr/pppppppp/8/8/4P3/8/PPPP1PPP/RNBQKBNR b KQkq - 0 1");
    assert_eq!(position.side_to_move(), Team::Black);
    assert_eq!(position.status(), BoardState::Ongoing);
    assert_ne!(position.fen(), START);
}

#[test]
fn playing_leaves_the_earlier_position_alone() {
    let start = Position::initial();
    let _next = start.play("d2d4");
    assert_eq!(start.fen(), START);
}

#[test]
fn a_checkmate_is_told_from_a_stalemate() {
    let mate = after(&["f2f3", "e7e5", "g2g4", "d8h4"]);
    assert_eq!(mate.status(), BoardState::Checkmate);
    assert_eq!(mate.side_to_move(), Team::White);
    assert_eq!(mate.pick_random_move(), None);
    let stalemate = after(&[
        "e2e3", "a7a5", "d1h5", "a8a6", "h5a5", "h7h5", "h2h4", "a6h6", "a5c7", "f7f6", "c7d7",
        "e8f7", "d7b7", "d8d3", "b7b8", "d3h7", "b8c8", "f7g6", "c8e6",
    ]);
    assert_eq!(stalemate.status(), BoardState::Stalemate);
    assert_eq!(stalemate.side_to_move(), Team::Black);
    assert_eq!(stalemate.pick_random_move(), None);
    assert!(!stalemate.is_legal("h7h8"));
}

#[test]
fn a_promotion_is_played_with_its_letter() {
    let position = after(&[
        "a2a4", "b7b5", "a4b5", "a7a6", "b5a6", "c8b7", "a6b7", "b8c6",
    ]);
    assert!(position.is_legal("b7a8q"));
    assert!(position.is_legal("b7a8n"));
    assert!(!position.is_legal("b7a8"));
    let promoted = position.play("b7a8n");
    assert!(promoted.fen().starts_with("N2qkbnr/"));
}

#[test]
fn a_random_move_is_a_legal_move() {
    let position = Position::initial();
    for _ in 0..50 {
        let mv = position.pick_random_move().expect("the initial position has moves");
        assert!(position.is_legal(&mv));
        assert_eq!(mv.len(), 4);
    }
}

#[test]
fn the_legal_moves_are_listed_in_coordinate_notation() {
    let position = Position::initial();
    let moves = position.legal_moves();
    assert_eq!(moves.len(), 20);
    for mv in ["a2a3", "a2a4", "e2e4", "h2h4", "b1a3", "b1c3", "g1f3", "g1h3"] {
        assert!(moves.iter().any(|listed| listed == mv), "{} is missing", mv);
    }
    for mv in &moves {
        assert!(position.is_legal(mv));
        assert_eq!(mv.len(), 4);
    }
    let mut sorted = moves.clone();
    sorted.sort();
    sorted.dedup();
    assert_eq!(sorted.len(), 20);
}

#[test]
fn the_legal_moves_tell_whether_the_game_goes_on() {
    let mate = after(&["f2f3", "e7e5", "g2g4", "d8h4"]);
    assert!(mate.legal_moves().is_empty());
    let check = after(&["e2e4", "f7f6", "d1h5"]);
    assert_eq!(check.legal_moves(), vec!["g7g6".to_string()]);
    assert_eq!(check.status(), BoardState::Ongoing);
    for _ in 0..10 {
        assert_eq!(check.pick_random_move(), Some("g7g6".to_string()));
    }
}

#[test]
fn promotions_are_listed_with_their_letter() {
    let position = after(&[
        "a2a4", "b7b5", "a4b5", "a7a6", "b5a6", "c8b7", "a6b7", "b8c6",
    ]);
    let moves = position.legal_moves();
    for mv in ["b7a8q", "b7a8r", "b7a8b", "b7a8n", "b7b8q"] {
        assert!(moves.iter().any(|listed| listed == mv), "{} is missing", mv);
    }
    assert!(!moves.iter().any(|listed| listed == "b7a8"));
}
