use ouija_chess::registry::Registry;
use ouija_chess::session::{Progress, SessionConfig, SessionError};
use ouija_chess::status::{GameStatus, Team};

fn registry_with(ids: &[&str]) -> Registry {
    let mut registry = Registry::new(SessionConfig::standard());
    for id in ids {
        assert_eq!(registry.create(id.to_string()), Ok(()));
    }
    registry
}

#[test]
fn a_new_registry_has_no_game() {
    let registry = Registry::new(SessionConfig::standard());
    assert!(registry.get("123").is_none());
    assert!(registry.get("").is_none());
    assert_eq!(registry.config(), SessionConfig::standard());
}

#[test]
fn a_created_game_is_found_and_waits() {
    let registry = registry_with(&["123"]);
    let session = registry.get("123").expect("the game was created");
    assert_eq!(session.id(), "123");
    assert_eq!(session.status(), GameStatus::Waiting);
    assert_eq!(session.player_count(), 0);
    assert_eq!(session.config(), SessionConfig::standard());
    assert!(registry.get("124").is_none());
    assert!(registry.get("12").is_none());
}

#[test]
fn an_identifier_is_given_once() {
    let mut registry = registry_with(&["123", "abc"]);
    assert_eq!(registry.vote("123", "ann", "e2e4"), Ok(()));
    assert_eq!(registry.create("123".to_string()), Err(SessionError::AlreadyExists));
    assert_eq!(registry.create("abc".to_string()), Err(SessionError::AlreadyExists));
    assert_eq!(registry.get("123").unwrap().votes_for("e2e4"), 1);
    assert_eq!(registry.create("abd".to_string()), Ok(()));
}

#[test]
fn games_get_the_configuration_of_the_registry() {
    let config = SessionConfig { round_millis: 250, players_required: 3 };
    let mut registry = Registry::new(config);
    assert_eq!(registry.create("g".to_string()), Ok(()));
    assert_eq!(registry.get("g").unwrap().config(), config);
}

#[test]
fn a_vote_for_a_game_that_does_not_exist_is_refused() {
    let mut registry = registry_with(&["123"]);
    assert_eq!(registry.vote("nope", "ann", "e2e4"), Err(SessionError::SessionNotFound));
    assert_eq!(registry.vote("nope", "ann", "no move"), Err(SessionError::SessionNotFound));
    assert_eq!(registry.get("123").unwrap().vote_count(), 0);
}

#[test]
fn votes_reach_the_game_they_name() {
    let mut registry = registry_with(&["one", "two"]);
    assert_eq!(registry.vote("one", "ann", "e2e4"), Ok(()));
    assert_eq!(registry.vote("two", "ann", "d2d4"), Ok(()));
    assert_eq!(registry.vote("one", "ann", "d2d4"), Err(SessionError::DuplicateVote));
    assert_eq!(registry.vote("two", "bob", "d2d5"), Err(SessionError::IllegalMove));
    assert_eq!(registry.get("one").unwrap().votes_for("e2e4"), 1);
    assert_eq!(registry.get("one").unwrap().votes_for("d2d4"), 0);
    assert_eq!(registry.get("two").unwrap().votes_for("d2d4"), 1);
    assert_eq!(registry.get("two").unwrap().vote_count(), 1);
}

#[test]
fn subscribing_reaches_the_game_it_names() {
    let mut registry = registry_with(&["one", "two"]);
    let (subscription, update) = registry.subscribe_as("two", Team::Black).unwrap();
    assert_eq!(subscription.team, Team::Black);
    assert_eq!(update.team, Team::Black);
    assert_eq!(update.status, GameStatus::Waiting);
    assert_eq!(registry.get("two").unwrap().player_count(), 1);
    assert_eq!(registry.get("one").unwrap().player_count(), 0);
    assert_eq!(subscription.seen, registry.get("two").unwrap().generation());
    let (random, update) = registry.subscribe("two").unwrap();
    assert_eq!(update.team, random.team);
    assert_eq!(registry.get("two").unwrap().player_count(), 2);
}

#[test]
fn subscribing_to_a_game_that_does_not_exist_is_refused() {
    let mut registry = registry_with(&["one"]);
    assert!(matches!(registry.subscribe("zero"), Err(SessionError::SessionNotFound)));
    assert!(matches!(
        registry.subscribe_as("zero", Team::White),
        Err(SessionError::SessionNotFound)
    ));
    assert_eq!(registry.get("one").unwrap().player_count(), 0);
}

#[test]
fn a_game_is_driven_through_the_registry() {
    let mut registry = registry_with(&["one", "two"]);
    assert!(matches!(registry.advance("one", 0), Err(SessionError::InsufficientPlayers)));
    assert!(matches!(registry.advance("zero", 0), Err(SessionError::SessionNotFound)));
    let (mut subscription, _) = registry.subscribe_as("one", Team::White).unwrap();
    assert!(matches!(registry.advance("one", 100), Ok(Progress::Started)));
    assert_eq!(registry.vote("one", "ann", "e2e4"), Ok(()));
    assert!(matches!(registry.advance("one", 5_000), Ok(Progress::NotDue)));
    match registry.advance("one", 10_100) {
        Ok(Progress::Played(mv)) => assert_eq!(mv, "e2e4"),
        other => panic!("{:?}", other),
    }
    let session = registry.get("one").unwrap();
    assert_eq!(
        session.position().fen(),
        "rnbqkbnr/pppppppp/8/8/4P3/8/PPPP1PPP/RNBQKBNR b KQkq - 0 1"
    );
    assert_eq!(session.round_deadline(), Some(20_100));
    assert_eq!(registry.get("two").unwrap().status(), GameStatus::Waiting);
    let update = registry.poll("one", &mut subscription).unwrap().expect("two changes");
    assert_eq!(update.deadline, Some(20_100));
    assert!(registry.poll("one", &mut subscription).unwrap().is_none());
    assert!(matches!(
        registry.poll("zero", &mut subscription),
        Err(SessionError::SessionNotFound)
    ));
}

#[test]
fn a_game_started_under_a_random_identifier_is_found_under_it() {
    let mut registry = Registry::new(SessionConfig::standard());
    for _ in 0..20 {
        let id = match registry.start_game() {
            Ok(id) => id,
            Err(error) => {
                assert_eq!(error, SessionError::AlreadyExists);
                panic!("six random characters met twice in twenty games");
            }
        };
        assert_eq!(id.chars().count(), 6);
        assert!(id.chars().all(|c| c.is_ascii_alphanumeric()));
        assert_eq!(registry.get(&id).unwrap().status(), GameStatus::Waiting);
        assert_eq!(registry.get(&id).unwrap().id(), &id);
    }
}

#[test]
fn a_game_that_cannot_begin_a_round_is_driven_at_any_time() {
    let mut registry = registry_with(&["one"]);
    assert!(matches!(registry.advance("one", u64::MAX), Err(SessionError::InsufficientPlayers)));
    assert!(matches!(registry.advance("zero", u64::MAX), Err(SessionError::SessionNotFound)));
    registry.subscribe_as("one", Team::White).unwrap();
    assert!(matches!(registry.advance("one", 40), Ok(Progress::Started)));
    assert!(matches!(registry.advance("one", 0), Ok(Progress::NotDue)));
    assert_eq!(registry.get("one").unwrap().round_deadline(), Some(10_040));
}

#[test]
fn a_game_is_not_driven_at_a_time_that_leaves_no_room_for_a_round() {
    let mut registry = registry_with(&["one"]);
    registry.subscribe_as("one", Team::White).unwrap();
    assert!(registry.try_advance("one", u64::MAX).is_none());
    assert_eq!(registry.get("one").unwrap().status(), GameStatus::Waiting);
    assert!(matches!(
        registry.try_advance("zero", u64::MAX),
        Some(Err(SessionError::SessionNotFound))
    ));
    assert!(matches!(registry.try_advance("one", 7), Some(Ok(Progress::Started))));
    assert_eq!(registry.get("one").unwrap().round_deadline(), Some(10_007));
    assert!(matches!(registry.try_advance("one", 8), Some(Ok(Progress::NotDue))));
}
