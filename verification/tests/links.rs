use ouija_chess::links::{html_fallback, join_path, join_qrcode, join_url, QR_SIZE};
use ouija_chess::status::{BoardState, GameStatus, Team};

#[test]
fn the_page_of_a_game_lies_under_its_identifier() {
    assert_eq!(join_path("aB3dE9"), "/aB3dE9/static/index.html");
    assert_eq!(join_path(""), "//static/index.html");
}

#[test]
fn the_address_of_a_game_names_the_site() {
    assert_eq!(join_url("aB3dE9"), "http://ouijachess.tech/aB3dE9/static/index.html");
    assert_eq!(join_url("123"), "http://ouijachess.tech/123/static/index.html");
}

#[test]
fn the_fallback_of_an_address_ends_in_html() {
    assert_eq!(html_fallback("/123/static/index"), "/123/static/index.html");
    assert_eq!(html_fallback(""), ".html");
}

#[test]
fn the_invitation_is_a_png_picture() {
    let png = join_qrcode("aB3dE9").expect("a short address fits a QR code");
    assert_eq!(&png[..8], &[0x89, b'P', b'N', b'G', 0x0d, 0x0a, 0x1a, 0x0a]);
    assert_eq!(&png[12..16], b"IHDR");
    assert_eq!(&png[16..20], &(QR_SIZE as u32).to_be_bytes());
    assert_eq!(&png[20..24], &(QR_SIZE as u32).to_be_bytes());
    assert_ne!(png, join_url("aB3dE9").into_bytes());
}

#[test]
fn the_invitation_depends_on_the_game_alone() {
    assert_eq!(join_qrcode("aB3dE9"), join_qrcode("aB3dE9"));
    assert_ne!(join_qrcode("aB3dE9"), join_qrcode("aB3dE8"));
}

#[test]
fn an_identifier_too_long_for_a_qr_code_gets_no_invitation() {
    let id = "x".repeat(5_000);
    assert_eq!(join_qrcode(&id), None);
}

#[test]
fn labels_go_by_index() {
    assert_eq!(Team::from_index(0), Team::White);
    assert_eq!(Team::from_index(1), Team::Black);
    assert_eq!(Team::from_index(7), Team::Black);
    assert_eq!(Team::White.opponent(), Team::Black);
    assert_eq!(Team::Black.opponent(), Team::White);
}

#[test]
fn a_random_label_is_one_of_the_two() {
    let mut white = 0;
    let mut black = 0;
    for _ in 0..200 {
        match Team::random() {
            Team::White => white += 1,
            Team::Black => black += 1,
        }
    }
    assert_eq!(white + black, 200);
    assert!(white > 0 && black > 0);
}

#[test]
fn the_status_after_a_move_follows_the_board() {
    assert_eq!(GameStatus::after_move(BoardState::Ongoing, Team::White), GameStatus::Ongoing);
    assert_eq!(GameStatus::after_move(BoardState::Ongoing, Team::Black), GameStatus::Ongoing);
    assert_eq!(GameStatus::after_move(BoardState::Stalemate, Team::White), GameStatus::Draw);
    assert_eq!(GameStatus::after_move(BoardState::Stalemate, Team::Black), GameStatus::Draw);
    assert_eq!(GameStatus::after_move(BoardState::Checkmate, Team::White), GameStatus::BlackWon);
    assert_eq!(GameStatus::after_move(BoardState::Checkmate, Team::Black), GameStatus::WhiteWon);
}

#[test]
fn three_statuses_are_terminal() {
    assert!(!GameStatus::Waiting.is_terminal());
    assert!(!GameStatus::Ongoing.is_terminal());
    assert!(GameStatus::WhiteWon.is_terminal());
    assert!(GameStatus::BlackWon.is_terminal());
    assert!(GameStatus::Draw.is_terminal());
}

#[test]
fn labels_and_statuses_are_written_in_lower_case() {
    assert_eq!(Team::White.name(), "white");
    assert_eq!(Team::Black.name(), "black");
    assert_eq!(GameStatus::Waiting.name(), "waiting");
    assert_eq!(GameStatus::Ongoing.name(), "ongoing");
    assert_eq!(GameStatus::WhiteWon.name(), "white_win");
    assert_eq!(GameStatus::BlackWon.name(), "black_win");
    assert_eq!(GameStatus::Draw.name(), "draw");
}
