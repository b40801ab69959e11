use gami::fetch::{
    get_metadata, get_metadatas, single_result, FetchError, FetchOutcome, FetchProgress,
    MetadataFetchEngine, DEFAULT_WIDTH,
};
use std::cell::RefCell;
use gami::models::{GameLibraryRefOwned, GameMetadata};

fn game(id: u32) -> GameLibraryRefOwned {
    GameLibraryRefOwned {
        name: format!("Game {}", id),
        library_type: "steam".to_string(),
        library_id: id.to_string(),
    }
}

fn batch(n: u32) -> Vec<GameLibraryRefOwned> {
    (0..n).map(game).collect()
}

fn described(text: &str) -> GameMetadata {
    let mut metadata = GameMetadata::default();
    metadata.description = Some(text.to_string());
    metadata
}

#[test]
fn the_default_width_is_eight() {
    assert_eq!(DEFAULT_WIDTH, 8);
    let mut engine = MetadataFetchEngine::new(batch(20));
    let mut handed_out = 0;
    while let Some((token, game)) = engine.next_dispatch() {
        assert_eq!(token, handed_out);
        assert_eq!(game.library_id, handed_out.to_string());
        handed_out += 1;
    }
    assert_eq!(handed_out, 8);
    assert_eq!(engine.in_flight(), 8);
    assert_eq!(engine.total(), 20);
}

#[test]
fn no_more_than_width_fetches_are_in_flight() {
    let mut engine = MetadataFetchEngine::with_width(batch(5), 2);
    assert_eq!(engine.next_dispatch().map(|job| job.0), Some(0));
    assert_eq!(engine.next_dispatch().map(|job| job.0), Some(1));
    assert!(engine.next_dispatch().is_none());
    assert_eq!(engine.in_flight(), 2);
    assert_eq!(
        engine.complete(1, FetchOutcome::Failed(FetchError::Network)),
        Some(FetchProgress { current: 1, total: 5 })
    );
    assert_eq!(engine.in_flight(), 1);
    assert_eq!(engine.next_dispatch().map(|job| job.0), Some(2));
    assert!(engine.next_dispatch().is_none());
    assert!(!engine.is_done());
}

#[test]
fn a_width_of_zero_means_one_worker() {
    let mut engine = MetadataFetchEngine::with_width(batch(2), 0);
    assert_eq!(engine.next_dispatch().map(|job| job.0), Some(0));
    assert!(engine.next_dispatch().is_none());
    assert!(engine.complete(0, FetchOutcome::Fetched(GameMetadata::default())).is_some());
    assert_eq!(engine.next_dispatch().map(|job| job.0), Some(1));
}

#[test]
fn partial_failure_leaves_the_other_results() {
    let n = 7;
    let mut engine = MetadataFetchEngine::with_width(batch(n), 3);
    let failing = [1usize, 4];
    let mut ticks = Vec::new();
    while !engine.is_done() {
        let mut jobs = Vec::new();
        while let Some(job) = engine.next_dispatch() {
            jobs.push(job);
        }
        assert!(!jobs.is_empty());
        assert!(jobs.len() <= 3);
        for (token, game) in jobs.into_iter().rev() {
            let outcome = if failing.contains(&token) {
                FetchOutcome::Failed(if token == 1 { FetchError::Network } else { FetchError::Decode })
            } else {
                FetchOutcome::Fetched(described(&game.library_id))
            };
            ticks.push(engine.complete(token, outcome).expect("the engine waits for this token"));
        }
    }
    let expected: Vec<FetchProgress> =
        (1..=n as usize).map(|current| FetchProgress { current, total: n as usize }).collect();
    assert_eq!(ticks, expected);
    let results = engine.results();
    assert_eq!(results.len(), n as usize - failing.len());
    let ids: Vec<&str> = results.iter().map(|entry| entry.0.library_id.as_str()).collect();
    assert_eq!(ids, vec!["0", "2", "3", "5", "6"]);
    for (game, metadata) in &results {
        assert_eq!(metadata.description.as_deref(), Some(game.library_id.as_str()));
    }
    assert_eq!(engine.ended(), n as usize);
    assert_eq!(engine.in_flight(), 0);
    assert!(engine.next_dispatch().is_none());
}

#[test]
fn an_outcome_nobody_waits_for_changes_nothing() {
    let mut engine = MetadataFetchEngine::with_width(batch(2), 2);
    assert_eq!(engine.complete(0, FetchOutcome::Fetched(GameMetadata::default())), None);
    assert_eq!(engine.complete(7, FetchOutcome::Failed(FetchError::Network)), None);
    engine.next_dispatch();
    assert!(engine.complete(0, FetchOutcome::Fetched(GameMetadata::default())).is_some());
    assert_eq!(engine.complete(0, FetchOutcome::Fetched(described("again"))), None);
    assert_eq!(engine.ended(), 1);
    assert_eq!(engine.results().len(), 1);
    assert_eq!(engine.results()[0].1.description, None);
}

#[test]
fn an_empty_batch_is_done_at_once() {
    let mut engine = MetadataFetchEngine::new(Vec::new());
    assert!(engine.is_done());
    assert!(engine.next_dispatch().is_none());
    assert!(engine.results().is_empty());
    assert_eq!(engine.total(), 0);
}

#[test]
fn an_answer_without_details_is_a_result() {
    let mut engine = MetadataFetchEngine::new(batch(1));
    engine.next_dispatch();
    assert_eq!(
        engine.complete(0, FetchOutcome::Fetched(GameMetadata::default())),
        Some(FetchProgress { current: 1, total: 1 })
    );
    let results = engine.results();
    assert_eq!(results.len(), 1);
    assert_eq!(results[0].1.description, None);
    assert!(results[0].1.genres.is_empty());
}

#[test]
fn the_single_form_agrees_with_a_batch_of_one() {
    let single = single_result(FetchOutcome::Fetched(described("x")));
    assert_eq!(single.unwrap().description.as_deref(), Some("x"));
    assert!(single_result(FetchOutcome::Failed(FetchError::Decode)).is_none());

    let mut engine = MetadataFetchEngine::with_width(batch(1), 1);
    engine.next_dispatch();
    engine.complete(0, FetchOutcome::Fetched(described("x")));
    assert_eq!(engine.results()[0].1.description.as_deref(), Some("x"));

    let mut engine = MetadataFetchEngine::with_width(batch(1), 1);
    engine.next_dispatch();
    engine.complete(0, FetchOutcome::Failed(FetchError::Decode));
    assert!(engine.results().is_empty());
}

#[test]
fn a_batch_run_in_place_answers_for_what_did_not_fail() {
    let asked: RefCell<Vec<String>> = RefCell::new(Vec::new());
    let heard: RefCell<Vec<FetchProgress>> = RefCell::new(Vec::new());
    let games = batch(5);
    let found = get_metadatas(
        &games,
        |game: GameLibraryRefOwned| {
            asked.borrow_mut().push(game.library_id.clone());
            if game.library_id == "1" {
                FetchOutcome::Failed(FetchError::Network)
            } else if game.library_id == "3" {
                FetchOutcome::Failed(FetchError::Decode)
            } else {
                FetchOutcome::Fetched(described(&game.name))
            }
        },
        |tick: FetchProgress| heard.borrow_mut().push(tick),
    );
    assert_eq!(asked.into_inner(), vec!["0", "1", "2", "3", "4"]);
    assert_eq!(found.len(), 3);
    let keys: Vec<&str> = found.iter().map(|entry| entry.0.library_id.as_str()).collect();
    assert_eq!(keys, vec!["0", "2", "4"]);
    assert_eq!(found[1].0.name, "Game 2");
    assert_eq!(found[1].0.library_type, "steam");
    assert_eq!(found[1].1.description.as_deref(), Some("Game 2"));
    let ticks: Vec<FetchProgress> = (1..=5).map(|current| FetchProgress { current, total: 5 }).collect();
    assert_eq!(heard.into_inner(), ticks);
}

#[test]
fn a_batch_run_in_place_may_be_empty_or_fail_throughout() {
    let none = get_metadatas(&vec![], |_| FetchOutcome::Failed(FetchError::Network), |_| {});
    assert!(none.is_empty());
    let ticks: RefCell<usize> = RefCell::new(0);
    let lost = get_metadatas(
        &batch(12),
        |_| FetchOutcome::Failed(FetchError::Network),
        |_| *ticks.borrow_mut() += 1,
    );
    assert!(lost.is_empty());
    assert_eq!(ticks.into_inner(), 12);
}

#[test]
fn the_single_form_run_in_place_asks_once() {
    let asked: RefCell<usize> = RefCell::new(0);
    let found = get_metadata(game(7), |game: GameLibraryRefOwned| {
        *asked.borrow_mut() += 1;
        FetchOutcome::Fetched(described(&game.library_id))
    });
    assert_eq!(found.and_then(|metadata| metadata.description).as_deref(), Some("7"));
    assert_eq!(asked.into_inner(), 1);
    assert!(get_metadata(game(7), |_| FetchOutcome::Failed(FetchError::Decode)).is_none());
    let empty = get_metadata(game(7), |_| FetchOutcome::Fetched(GameMetadata::default()))
        .expect("a fetch that worked answers");
    assert_eq!(empty.description, None);
    assert!(empty.genres.is_empty());
    assert_eq!(empty.header_url, None);
    assert_eq!(empty.release_date_timestamp, None);
}
