use ouija_chess::tally::VoteTally;

fn tally_of(votes: &[(&str, &str)]) -> VoteTally {
    let mut tally = VoteTally::new();
    for (player, mv) in votes {
        assert!(!tally.has_voted(player));
        tally.record(player.to_string(), mv.to_string());
    }
    tally
}

#[test]
fn a_new_tally_is_empty() {
    let tally = VoteTally::new();
    assert!(tally.is_empty());
    assert_eq!(tally.voter_count(), 0);
    assert_eq!(tally.votes_for("e2e4"), 0);
    assert!(!tally.has_voted("ann"));
    assert_eq!(tally.winner(), None);
}

#[test]
fn a_first_vote_makes_the_move_a_candidate_with_one_vote() {
    let tally = tally_of(&[("ann", "e2e4")]);
    assert!(!tally.is_empty());
    assert_eq!(tally.votes_for("e2e4"), 1);
    assert_eq!(tally.votes_for("d2d4"), 0);
    assert_eq!(tally.voter_count(), 1);
    assert!(tally.has_voted("ann"));
    assert!(!tally.has_voted("bob"));
    assert_eq!(tally.winner(), Some("e2e4".to_string()));
}

#[test]
fn further_votes_are_counted_move_by_move() {
    let tally = tally_of(&[
        ("ann", "e2e4"),
        ("bob", "d2d4"),
        ("cat", "e2e4"),
        ("dan", "g1f3"),
        ("eve", "e2e4"),
    ]);
    assert_eq!(tally.votes_for("e2e4"), 3);
    assert_eq!(tally.votes_for("d2d4"), 1);
    assert_eq!(tally.votes_for("g1f3"), 1);
    assert_eq!(tally.votes_for("b1c3"), 0);
    assert_eq!(tally.voter_count(), 5);
}

#[test]
fn the_move_with_the_most_votes_wins() {
    let tally = tally_of(&[("ann", "d2d4"), ("bob", "e2e4"), ("cat", "e2e4")]);
    assert_eq!(tally.winner(), Some("e2e4".to_string()));
    let tally = tally_of(&[("ann", "e2e4"), ("bob", "e2e4"), ("cat", "d2d4")]);
    assert_eq!(tally.winner(), Some("e2e4".to_string()));
    let tally = tally_of(&[("ann", "a2a3"), ("bob", "h2h4"), ("cat", "h2h4")]);
    assert_eq!(tally.winner(), Some("h2h4".to_string()));
}

#[test]
fn a_tie_goes_to_the_move_first_in_the_dictionary() {
    let tally = tally_of(&[("ann", "e2e4"), ("bob", "d2d4")]);
    assert_eq!(tally.winner(), Some("d2d4".to_string()));
    let tally = tally_of(&[("ann", "d2d4"), ("bob", "e2e4")]);
    assert_eq!(tally.winner(), Some("d2d4".to_string()));
}

#[test]
fn a_tie_among_the_leaders_ignores_the_others() {
    let tally = tally_of(&[
        ("ann", "a2a3"),
        ("bob", "g1f3"),
        ("cat", "e2e4"),
        ("dan", "g1f3"),
        ("eve", "e2e4"),
    ]);
    assert_eq!(tally.winner(), Some("e2e4".to_string()));
}

#[test]
fn a_tie_between_a_move_and_its_promotion_goes_to_the_shorter_text() {
    let tally = tally_of(&[("ann", "e7e8q"), ("bob", "e7e8b"), ("cat", "e7e8")]);
    assert_eq!(tally.winner(), Some("e7e8".to_string()));
    let tally = tally_of(&[("ann", "e7e8q"), ("bob", "e7e8n")]);
    assert_eq!(tally.winner(), Some("e7e8n".to_string()));
}

#[test]
fn clearing_forgets_votes_and_voters() {
    let mut tally = tally_of(&[("ann", "e2e4"), ("bob", "d2d4")]);
    tally.clear();
    assert!(tally.is_empty());
    assert_eq!(tally.voter_count(), 0);
    assert_eq!(tally.votes_for("e2e4"), 0);
    assert!(!tally.has_voted("ann"));
    assert_eq!(tally.winner(), None);
    tally.record("ann".to_string(), "g1f3".to_string());
    assert_eq!(tally.winner(), Some("g1f3".to_string()));
}

#[test]
fn voters_are_told_apart_by_their_whole_name() {
    let tally = tally_of(&[("ann", "e2e4"), ("", "e2e4")]);
    assert!(tally.has_voted(""));
    assert!(tally.has_voted("ann"));
    assert!(!tally.has_voted("an"));
    assert!(!tally.has_voted("anna"));
    assert!(!tally.has_voted("Ann"));
}
