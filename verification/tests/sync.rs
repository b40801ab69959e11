use gami::catalog::{GameGenre, Genre};
use gami::models::{
    GameData, GameInstallStatus, GameLibraryRefOwned, GameMetadata, GenreData,
    ScannedGameLibraryMetadata,
};
use gami::plan::{
    candidate_ids, fetch_targets, find_metadata, genre_ids, genres_to_create, ingest, plan_games,
    select_new_games,
};
use gami::sync::{
    progress_of, SyncCommand, SyncError, SyncEvent, SyncPass, SyncProgressEvent, SyncReport, SyncStage,
};
use gami::table::StringTable;

fn scanned(addon: &str, id: &str) -> ScannedGameLibraryMetadata {
    ScannedGameLibraryMetadata {
        name: format!("Game {}", id),
        library_type: addon.to_string(),
        library_id: id.to_string(),
        last_played_epoch: None,
        install_status: GameInstallStatus::InLibrary,
        playtime_secs: 0,
        icon_url: None,
    }
}

fn genre(id: &str, name: &str) -> GenreData {
    GenreData { name: name.to_string(), library_id: id.to_string() }
}

fn metadata(description: &str, genres: Vec<GenreData>) -> GameMetadata {
    let mut metadata = GameMetadata::default();
    metadata.description = Some(description.to_string());
    metadata.genres = genres;
    metadata
}

/// A catalog in memory, with a transaction that copies and swaps.
#[derive(Clone, Default)]
struct Catalog {
    games: Vec<GameData>,
    genres: Vec<Genre>,
    links: Vec<GameGenre>,
    next_id: i32,
}

impl Catalog {
    fn existing_ids(&self, addon: &str, ids: &[String]) -> Vec<String> {
        self.games
            .iter()
            .filter(|game| game.library_type == addon && ids.contains(&game.library_id))
            .map(|game| game.library_id.clone())
            .collect()
    }

    fn existing_genres(&self, addon: &str, ids: &[String]) -> Vec<(String, i32)> {
        self.genres
            .iter()
            .filter(|row| row.metadata_source == addon && ids.contains(&row.metadata_id))
            .map(|row| (row.metadata_id.clone(), row.id))
            .collect()
    }

    fn fresh_id(&mut self) -> i32 {
        self.next_id += 1;
        self.next_id
    }

    fn ids_of(&self, addon: &str) -> Vec<String> {
        self.games.iter().filter(|g| g.library_type == addon).map(|g| g.library_id.clone()).collect()
    }
}

/// What the addon and the catalog do in a run.
struct World<'a> {
    scan: Option<Vec<ScannedGameLibraryMetadata>>,
    has_scanner: bool,
    fetch: &'a dyn Fn(&GameLibraryRefOwned) -> Option<GameMetadata>,
    fail_at_command: Option<usize>,
}

struct Run {
    outcome: Result<SyncReport, SyncError>,
    progress: Vec<SyncProgressEvent>,
    fetched_for: Vec<String>,
    commands: Vec<String>,
}

fn run_pass(addon: &str, world: &World, catalog: &mut Catalog) -> Run {
    let (mut pass, mut command) = SyncPass::start(addon.to_string(), world.has_scanner);
    let mut staged: Option<Catalog> = None;
    let mut run = Run { outcome: Err(SyncError::TransactionError), progress: vec![], fetched_for: vec![], commands: vec![] };
    let mut count = 0usize;
    loop {
        if let Some(progress) = progress_of(&command) {
            run.progress.push(progress);
        }
        let failing = world.fail_at_command == Some(count);
        count += 1;
        let event = match command {
            SyncCommand::Scan => {
                run.commands.push("scan".to_string());
                match &world.scan {
                    Some(records) if !failing => SyncEvent::Scanned(records.clone()),
                    _ => SyncEvent::Failed,
                }
            }
            SyncCommand::FindExistingGames { addon, ids } => {
                run.commands.push(format!("find-games {}", ids.join(",")));
                if failing { SyncEvent::Failed } else { SyncEvent::ExistingGames(catalog.existing_ids(&addon, &ids)) }
            }
            SyncCommand::FetchMetadata { games, total } => {
                run.commands.push(format!("fetch {} of {}", games.len(), total));
                if failing {
                    SyncEvent::Failed
                } else {
                    let mut results = Vec::new();
                    for game in games {
                        run.fetched_for.push(game.library_id.clone());
                        if let Some(found) = (world.fetch)(&game) {
                            results.push((game, found));
                        }
                    }
                    SyncEvent::Metadata(results)
                }
            }
            SyncCommand::FindExistingGenres { addon, ids } => {
                run.commands.push(format!("find-genres {}", ids.join(",")));
                if failing { SyncEvent::Failed } else { SyncEvent::ExistingGenres(catalog.existing_genres(&addon, &ids)) }
            }
            SyncCommand::Begin => {
                run.commands.push("begin".to_string());
                if failing {
                    SyncEvent::Failed
                } else {
                    staged = Some(catalog.clone());
                    SyncEvent::Began
                }
            }
            SyncCommand::InsertGenre { mut row } => {
                run.commands.push(format!("genre {}", row.metadata_id));
                let store = staged.as_mut().expect("a transaction is open");
                let duplicate = store
                    .genres
                    .iter()
                    .any(|g| g.metadata_source == row.metadata_source && g.metadata_id == row.metadata_id);
                if failing || duplicate {
                    SyncEvent::Failed
                } else {
                    row.id = store.fresh_id();
                    let id = row.id;
                    store.genres.push(row);
                    SyncEvent::Inserted(id)
                }
            }
            SyncCommand::InsertGame { mut game } => {
                run.commands.push(format!("game {}", game.library_id));
                let store = staged.as_mut().expect("a transaction is open");
                let duplicate = store
                    .games
                    .iter()
                    .any(|g| g.library_type == game.library_type && g.library_id == game.library_id);
                if failing || duplicate {
                    SyncEvent::Failed
                } else {
                    game.id = store.fresh_id();
                    let id = game.id;
                    store.games.push(game);
                    SyncEvent::Inserted(id)
                }
            }
            SyncCommand::InsertLinks { links } => {
                run.commands.push(format!("links {}", links.len()));
                let store = staged.as_mut().expect("a transaction is open");
                let dangling = links.iter().any(|link| {
                    !store.games.iter().any(|g| g.id == link.game_id)
                        || !store.genres.iter().any(|g| g.id == link.genre_id)
                });
                if failing || dangling {
                    SyncEvent::Failed
                } else {
                    store.links.extend(links);
                    SyncEvent::LinksInserted
                }
            }
            SyncCommand::Commit => {
                run.commands.push("commit".to_string());
                if failing {
                    SyncEvent::Failed
                } else {
                    *catalog = staged.take().expect("a transaction is open");
                    SyncEvent::Committed
                }
            }
            SyncCommand::Rollback => {
                run.commands.push("rollback".to_string());
                staged = None;
                SyncEvent::RolledBack
            }
            SyncCommand::Finish { outcome } => {
                run.outcome = outcome;
                assert!(pass.is_finished());
                assert_eq!(pass.outcome(), Some(outcome));
                assert_eq!(pass.stage(), SyncStage::Finished);
                return run;
            }
        };
        command = pass.step(event);
    }
}

fn no_metadata(_game: &GameLibraryRefOwned) -> Option<GameMetadata> {
    None
}

fn seeded(addon: &str, ids: &[&str]) -> Catalog {
    let mut catalog = Catalog::default();
    let world = World {
        scan: Some(ids.iter().map(|id| scanned(addon, id)).collect()),
        has_scanner: false,
        fetch: &no_metadata,
        fail_at_command: None,
    };
    let run = run_pass(addon, &world, &mut catalog);
    assert_eq!(run.outcome, Ok(SyncReport { games_added: ids.len(), genres_added: 0 }));
    catalog
}

#[test]
fn select_new_games_is_the_difference_against_the_catalog() {
    let scan = vec![scanned("steam", "10"), scanned("steam", "20"), scanned("steam", "30")];
    assert_eq!(candidate_ids(&scan), vec!["10", "20", "30"]);
    let existing = vec!["10".to_string(), "20".to_string()];
    let fresh = select_new_games("steam", &scan, &existing);
    assert_eq!(fresh.len(), 1);
    assert_eq!(fresh[0].library_id, "30");
    assert_eq!(fresh[0].name, "Game 30");
    assert_eq!(select_new_games("steam", &scan, &vec![]).len(), 3);
    let all = vec!["30".to_string(), "10".to_string(), "20".to_string(), "40".to_string()];
    assert!(select_new_games("steam", &scan, &all).is_empty());
    assert!(select_new_games("steam", &vec![], &existing).is_empty());
}

#[test]
fn select_new_games_keeps_the_first_of_a_repeated_id() {
    let mut again = scanned("steam", "10");
    again.name = "Game 10, listed again".to_string();
    let scan = vec![scanned("steam", "10"), scanned("steam", "20"), again, scanned("steam", "20")];
    let fresh = select_new_games("steam", &scan, &vec![]);
    assert_eq!(fresh.len(), 2);
    assert_eq!(fresh[0].library_id, "10");
    assert_eq!(fresh[0].name, "Game 10");
    assert_eq!(fresh[1].library_id, "20");
    let known = vec!["10".to_string()];
    let fresh = select_new_games("steam", &scan, &known);
    assert_eq!(fresh.len(), 1);
    assert_eq!(fresh[0].library_id, "20");
}

#[test]
fn select_new_games_leaves_out_what_is_not_the_addons_own() {
    let scan = vec![scanned("gog", "10"), scanned("steam", "10"), scanned("gog", "20")];
    let fresh = select_new_games("steam", &scan, &vec![]);
    assert_eq!(fresh.len(), 1);
    assert_eq!(fresh[0].library_type, "steam");
    assert_eq!(fresh[0].library_id, "10");
    assert!(select_new_games("epic", &scan, &vec![]).is_empty());
}

#[test]
fn a_game_listed_twice_is_written_once() {
    let mut catalog = Catalog::default();
    let fetch = |game: &GameLibraryRefOwned| Some(metadata(&game.library_id, vec![genre("1", "Action")]));
    let world = World {
        scan: Some(vec![scanned("steam", "10"), scanned("steam", "10"), scanned("steam", "20")]),
        has_scanner: true,
        fetch: &fetch,
        fail_at_command: None,
    };
    let run = run_pass("steam", &world, &mut catalog);
    assert_eq!(run.outcome, Ok(SyncReport { games_added: 2, genres_added: 1 }));
    assert_eq!(run.fetched_for, vec!["10", "20"]);
    assert_eq!(catalog.ids_of("steam"), vec!["10", "20"]);
    assert_eq!(catalog.genres.len(), 1);
    assert_eq!(catalog.links.len(), 2);
    let second = run_pass("steam", &world, &mut catalog);
    assert_eq!(second.outcome, Ok(SyncReport { games_added: 0, genres_added: 0 }));
    assert_eq!(catalog.ids_of("steam"), vec!["10", "20"]);
}

#[test]
fn a_record_of_another_library_is_never_written() {
    let mut catalog = Catalog::default();
    let fetch = |_: &GameLibraryRefOwned| None;
    let world = World {
        scan: Some(vec![scanned("steam", "10"), scanned("gog", "77")]),
        has_scanner: true,
        fetch: &fetch,
        fail_at_command: None,
    };
    let first = run_pass("steam", &world, &mut catalog);
    assert_eq!(first.outcome, Ok(SyncReport { games_added: 1, genres_added: 0 }));
    assert_eq!(first.fetched_for, vec!["10"]);
    let second = run_pass("steam", &world, &mut catalog);
    assert_eq!(second.outcome, Ok(SyncReport { games_added: 0, genres_added: 0 }));
    assert_eq!(catalog.games.len(), 1);
    assert!(catalog.ids_of("gog").is_empty());
}

#[test]
fn fetch_targets_are_the_addons_own_games() {
    let games: Vec<GameData> = vec![
        scanned("steam", "10").into_game_data(),
        scanned("gog", "11").into_game_data(),
        scanned("steam", "12").into_game_data(),
    ];
    let targets = fetch_targets("steam", &games);
    let ids: Vec<&str> = targets.iter().map(|t| t.library_id.as_str()).collect();
    assert_eq!(ids, vec!["10", "12"]);
    assert_eq!(targets[0].name, "Game 10");
    assert!(fetch_targets("epic", &games).is_empty());
}

#[test]
fn ingest_normalizes_genre_ids_once() {
    let game = scanned("steam", "10").into_game_data().get_owned_ref();
    let results = vec![(game, metadata("d", vec![genre(" 1 ", "Action"), genre("2\t", "RPG")]))];
    let held = ingest(results);
    assert_eq!(held[0].1.genres[0].library_id, "1");
    assert_eq!(held[0].1.genres[1].library_id, "2");
    let again = ingest(held);
    assert_eq!(again[0].1.genres[0].library_id, "1");
    assert_eq!(again[0].1.genres[1].library_id, "2");
    assert_eq!(again[0].1.description.as_deref(), Some("d"));
}

#[test]
fn find_metadata_takes_the_first_entry_for_the_game() {
    let a = scanned("steam", "10").into_game_data();
    let b = scanned("steam", "20").into_game_data();
    let results = vec![
        (b.get_owned_ref(), metadata("b", vec![])),
        (a.get_owned_ref(), metadata("first", vec![])),
        (a.get_owned_ref(), metadata("second", vec![])),
    ];
    assert_eq!(find_metadata(&results, &a.get_ref()).unwrap().description.as_deref(), Some("first"));
    assert_eq!(find_metadata(&results, &b.get_ref()).unwrap().description.as_deref(), Some("b"));
    let c = scanned("steam", "30").into_game_data();
    assert!(find_metadata(&results, &c.get_ref()).is_none());
}

#[test]
fn planned_games_keep_the_games_without_metadata() {
    let games: Vec<GameData> =
        ["10", "20", "30"].iter().map(|id| scanned("steam", id).into_game_data()).collect();
    let results = vec![(
        games[1].get_owned_ref(),
        metadata("twenty", vec![genre("1", "Action"), genre("2", "RPG"), genre("1", "Action")]),
    )];
    let planned = plan_games(&games, &results);
    assert_eq!(planned.len(), 3);
    assert_eq!(planned[0].game.library_id, "10");
    assert_eq!(planned[0].game.description, "");
    assert!(planned[0].genre_ids.is_empty());
    assert_eq!(planned[1].game.description, "twenty");
    assert_eq!(planned[1].genre_ids, vec!["1", "2"]);
    assert_eq!(planned[2].game.library_id, "30");
    assert!(planned[2].genre_ids.is_empty());
    assert_eq!(genre_ids(&planned), vec!["1", "2"]);
}

#[test]
fn genres_to_create_skips_known_and_repeated_ids() {
    let games: Vec<GameData> =
        ["10", "20"].iter().map(|id| scanned("steam", id).into_game_data()).collect();
    let results = vec![
        (games[0].get_owned_ref(), metadata("a", vec![genre("1", "Action"), genre("2", "RPG")])),
        (games[1].get_owned_ref(), metadata("b", vec![genre("2", "Role-playing"), genre("3", "Indie")])),
    ];
    let planned = plan_games(&games, &results);
    let mut known: StringTable<i32> = StringTable::new();
    known.insert("1".to_string(), 7);
    let created = genres_to_create(&planned, &known);
    let ids: Vec<&str> = created.iter().map(|g| g.library_id.as_str()).collect();
    assert_eq!(ids, vec!["2", "3"]);
    assert_eq!(created[0].name, "RPG");
    let none: StringTable<i32> = StringTable::new();
    assert_eq!(genres_to_create(&planned, &none).len(), 3);
}

#[test]
fn scenario_three_scanned_two_known() {
    let mut catalog = seeded("steam", &["10", "20"]);
    catalog.genres.push(Genre {
        id: 100,
        name: "Action".to_string(),
        metadata_source: "steam".to_string(),
        metadata_id: "1".to_string(),
    });
    let fetch = |game: &GameLibraryRefOwned| {
        Some(metadata(&format!("about {}", game.library_id), vec![genre("1", "Action"), genre("2", "RPG")]))
    };
    let world = World {
        scan: Some(vec![scanned("steam", "10"), scanned("steam", "20"), scanned("steam", "30")]),
        has_scanner: true,
        fetch: &fetch,
        fail_at_command: None,
    };
    let run = run_pass("steam", &world, &mut catalog);
    assert_eq!(run.outcome, Ok(SyncReport { games_added: 1, genres_added: 1 }));
    assert_eq!(run.fetched_for, vec!["30"]);
    assert_eq!(
        run.commands,
        vec![
            "scan",
            "find-games 10,20,30",
            "fetch 1 of 1",
            "find-genres 1,2",
            "begin",
            "genre 2",
            "game 30",
            "links 2",
            "commit"
        ]
    );
    assert_eq!(
        run.progress,
        vec![
            SyncProgressEvent::LibraryScan,
            SyncProgressEvent::FetchingMetadata { current: 0, total: 1 },
            SyncProgressEvent::Done
        ]
    );
    assert_eq!(catalog.ids_of("steam"), vec!["10", "20", "30"]);
    let ids: Vec<&str> = catalog.genres.iter().map(|g| g.metadata_id.as_str()).collect();
    assert_eq!(ids, vec!["1", "2"]);
    let added = catalog.games.iter().find(|g| g.library_id == "30").unwrap();
    assert_eq!(added.description, "about 30");
    let created = catalog.genres.iter().find(|g| g.metadata_id == "2").unwrap();
    assert_eq!(created.metadata_source, "steam");
    assert_eq!(created.name, "RPG");
    assert_eq!(
        catalog.links,
        vec![
            GameGenre { game_id: added.id, genre_id: 100 },
            GameGenre { game_id: added.id, genre_id: created.id }
        ]
    );
}

#[test]
fn a_second_pass_adds_nothing() {
    let mut catalog = Catalog::default();
    let fetch = |game: &GameLibraryRefOwned| Some(metadata(&game.library_id, vec![genre("1", "Action")]));
    let world = World {
        scan: Some(vec![scanned("steam", "10"), scanned("steam", "20"), scanned("steam", "30")]),
        has_scanner: true,
        fetch: &fetch,
        fail_at_command: None,
    };
    let first = run_pass("steam", &world, &mut catalog);
    assert_eq!(first.outcome, Ok(SyncReport { games_added: 3, genres_added: 1 }));
    let after_first = catalog.clone();
    let second = run_pass("steam", &world, &mut catalog);
    assert_eq!(second.outcome, Ok(SyncReport { games_added: 0, genres_added: 0 }));
    assert!(second.fetched_for.is_empty());
    assert_eq!(catalog.games.len(), after_first.games.len());
    assert_eq!(catalog.genres.len(), after_first.genres.len());
    assert_eq!(catalog.links, after_first.links);
    assert_eq!(second.progress[1], SyncProgressEvent::FetchingMetadata { current: 0, total: 0 });
}

#[test]
fn two_games_with_the_same_genre_share_one_row() {
    let mut catalog = Catalog::default();
    let fetch = |game: &GameLibraryRefOwned| {
        Some(metadata(
            &game.library_id,
            vec![genre(if game.library_id == "10" { "23 " } else { " 23" }, "Indie")],
        ))
    };
    let world = World {
        scan: Some(vec![scanned("steam", "10"), scanned("steam", "20")]),
        has_scanner: true,
        fetch: &fetch,
        fail_at_command: None,
    };
    let run = run_pass("steam", &world, &mut catalog);
    assert_eq!(run.outcome, Ok(SyncReport { games_added: 2, genres_added: 1 }));
    assert_eq!(catalog.genres.len(), 1);
    assert_eq!(catalog.genres[0].metadata_id, "23");
    assert_eq!(catalog.links.len(), 2);
    assert_eq!(catalog.links[0].genre_id, catalog.genres[0].id);
    assert_eq!(catalog.links[1].genre_id, catalog.genres[0].id);
    assert_ne!(catalog.links[0].game_id, catalog.links[1].game_id);
}

#[test]
fn games_whose_fetch_failed_are_still_persisted() {
    let mut catalog = Catalog::default();
    let fetch = |game: &GameLibraryRefOwned| {
        if game.library_id == "20" || game.library_id == "40" {
            None
        } else {
            Some(metadata(&format!("about {}", game.library_id), vec![]))
        }
    };
    let ids = ["10", "20", "30", "40", "50"];
    let world = World {
        scan: Some(ids.iter().map(|id| scanned("steam", id)).collect()),
        has_scanner: true,
        fetch: &fetch,
        fail_at_command: None,
    };
    let run = run_pass("steam", &world, &mut catalog);
    assert_eq!(run.outcome, Ok(SyncReport { games_added: 5, genres_added: 0 }));
    assert_eq!(catalog.ids_of("steam"), ids);
    for game in &catalog.games {
        if game.library_id == "20" || game.library_id == "40" {
            assert_eq!(game.description, "");
        } else {
            assert_eq!(game.description, format!("about {}", game.library_id));
        }
    }
}

#[test]
fn an_answer_without_details_enriches_nothing() {
    let mut catalog = Catalog::default();
    let fetch = |_game: &GameLibraryRefOwned| Some(GameMetadata::default());
    let world = World {
        scan: Some(vec![scanned("steam", "10")]),
        has_scanner: true,
        fetch: &fetch,
        fail_at_command: None,
    };
    let run = run_pass("steam", &world, &mut catalog);
    assert_eq!(run.outcome, Ok(SyncReport { games_added: 1, genres_added: 0 }));
    let game = &catalog.games[0];
    assert_eq!(game.library_id, "10");
    assert_eq!(game.description, "");
    assert!(game.genres.is_empty());
    assert_eq!(game.icon_url, None);
    assert_eq!(game.header_url, None);
    assert_eq!(game.cover_url, None);
    assert_eq!(game.release_date, None);
    assert!(catalog.genres.is_empty());
    assert!(catalog.links.is_empty());
}

#[test]
fn passes_of_two_addons_are_independent() {
    let mut catalog = Catalog::default();
    let (mut steam, steam_first) = SyncPass::start("steam".to_string(), false);
    let (mut gog, gog_first) = SyncPass::start("gog".to_string(), false);
    assert!(matches!(steam_first, SyncCommand::Scan));
    assert!(matches!(gog_first, SyncCommand::Scan));

    // The two passes take turns; the pass of gog is refused its game.
    let s = steam.step(SyncEvent::Scanned(vec![scanned("steam", "10")]));
    let g = gog.step(SyncEvent::Scanned(vec![scanned("gog", "10")]));
    assert!(matches!(s, SyncCommand::FindExistingGames { .. }));
    assert!(matches!(g, SyncCommand::FindExistingGames { .. }));
    let s = steam.step(SyncEvent::ExistingGames(vec![]));
    let g = gog.step(SyncEvent::ExistingGames(vec![]));
    assert!(matches!(s, SyncCommand::FetchMetadata { .. }));
    assert!(matches!(g, SyncCommand::FetchMetadata { .. }));
    let g = gog.step(SyncEvent::Metadata(vec![]));
    let s = steam.step(SyncEvent::Metadata(vec![]));
    assert!(matches!(s, SyncCommand::FindExistingGenres { .. }));
    assert!(matches!(g, SyncCommand::FindExistingGenres { .. }));
    assert!(matches!(gog.step(SyncEvent::ExistingGenres(vec![])), SyncCommand::Begin));
    assert!(matches!(steam.step(SyncEvent::ExistingGenres(vec![])), SyncCommand::Begin));
    let mut steam_txn = catalog.clone();
    assert!(matches!(gog.step(SyncEvent::Began), SyncCommand::InsertGame { .. }));
    match steam.step(SyncEvent::Began) {
        SyncCommand::InsertGame { mut game } => {
            game.id = steam_txn.fresh_id();
            steam_txn.games.push(game);
        }
        other => panic!("unexpected command {:?}", other),
    }
    assert!(matches!(gog.step(SyncEvent::Failed), SyncCommand::Rollback));
    assert!(matches!(steam.step(SyncEvent::Inserted(1)), SyncCommand::Commit));
    catalog = steam_txn;
    let g = gog.step(SyncEvent::RolledBack);
    let s = steam.step(SyncEvent::Committed);
    assert!(matches!(g, SyncCommand::Finish { outcome: Err(SyncError::TransactionError) }));
    assert!(matches!(s, SyncCommand::Finish { outcome: Ok(SyncReport { games_added: 1, genres_added: 0 }) }));
    assert_eq!(catalog.ids_of("steam"), vec!["10"]);
    assert!(catalog.ids_of("gog").is_empty());
    assert_eq!(gog.outcome(), Some(Err(SyncError::TransactionError)));
    assert_eq!(steam.outcome(), Some(Ok(SyncReport { games_added: 1, genres_added: 0 })));
}

#[test]
fn a_failed_scan_ends_the_pass_without_a_write() {
    let mut catalog = seeded("steam", &["10"]);
    let before = catalog.games.len();
    let world = World { scan: None, has_scanner: true, fetch: &no_metadata, fail_at_command: None };
    let run = run_pass("steam", &world, &mut catalog);
    assert_eq!(run.outcome, Err(SyncError::AddonCapabilityFault));
    assert_eq!(run.commands, vec!["scan"]);
    assert_eq!(run.progress, vec![SyncProgressEvent::LibraryScan, SyncProgressEvent::Done]);
    assert_eq!(catalog.games.len(), before);
}

#[test]
fn a_failure_inside_the_transaction_rolls_the_pass_back() {
    let fetch = |game: &GameLibraryRefOwned| Some(metadata(&game.library_id, vec![genre("1", "Action")]));
    let world_ok = World {
        scan: Some(vec![scanned("steam", "10"), scanned("steam", "20")]),
        has_scanner: true,
        fetch: &fetch,
        fail_at_command: None,
    };
    let mut reference = Catalog::default();
    let full = run_pass("steam", &world_ok, &mut reference);
    assert_eq!(
        full.commands,
        vec![
            "scan",
            "find-games 10,20",
            "fetch 2 of 2",
            "find-genres 1",
            "begin",
            "genre 1",
            "game 10",
            "links 1",
            "game 20",
            "links 1",
            "commit"
        ]
    );
    // Fail each step of the transaction in turn: nothing of the pass stays.
    for failing in 5..=10 {
        let mut catalog = Catalog::default();
        let world = World { fail_at_command: Some(failing), scan: world_ok.scan.clone(), ..world_ok };
        let run = run_pass("steam", &world, &mut catalog);
        assert_eq!(run.outcome, Err(SyncError::TransactionError), "failing at {}", failing);
        assert_eq!(run.commands.last().unwrap(), "rollback");
        assert!(catalog.games.is_empty());
        assert!(catalog.genres.is_empty());
        assert!(catalog.links.is_empty());
    }
}

#[test]
fn a_failure_of_the_catalog_before_the_transaction_ends_the_pass() {
    for failing in [1usize, 3, 4] {
        let mut catalog = Catalog::default();
        let world = World {
            scan: Some(vec![scanned("steam", "10")]),
            has_scanner: true,
            fetch: &no_metadata,
            fail_at_command: Some(failing),
        };
        let run = run_pass("steam", &world, &mut catalog);
        assert_eq!(run.outcome, Err(SyncError::TransactionError));
        assert!(!run.commands.contains(&"rollback".to_string()));
        assert!(catalog.games.is_empty());
    }
}

#[test]
fn a_failure_of_the_whole_fetch_costs_the_enrichment_only() {
    let mut catalog = Catalog::default();
    let fetch = |game: &GameLibraryRefOwned| Some(metadata(&game.library_id, vec![]));
    let world = World {
        scan: Some(vec![scanned("steam", "10"), scanned("steam", "20")]),
        has_scanner: true,
        fetch: &fetch,
        fail_at_command: Some(2),
    };
    let run = run_pass("steam", &world, &mut catalog);
    assert_eq!(run.outcome, Ok(SyncReport { games_added: 2, genres_added: 0 }));
    assert_eq!(catalog.games[0].description, "");
    assert_eq!(catalog.games[1].description, "");
}

#[test]
fn without_a_scanner_nothing_is_fetched() {
    let mut catalog = Catalog::default();
    let fetch = |game: &GameLibraryRefOwned| Some(metadata(&game.library_id, vec![]));
    let world = World {
        scan: Some(vec![scanned("steam", "10")]),
        has_scanner: false,
        fetch: &fetch,
        fail_at_command: None,
    };
    let run = run_pass("steam", &world, &mut catalog);
    assert_eq!(run.outcome, Ok(SyncReport { games_added: 1, genres_added: 0 }));
    assert!(run.fetched_for.is_empty());
    assert_eq!(run.commands[2], "fetch 0 of 1");
    assert_eq!(run.progress[1], SyncProgressEvent::FetchingMetadata { current: 0, total: 1 });
}

#[test]
fn an_event_out_of_turn_counts_as_a_failure() {
    let (mut pass, _) = SyncPass::start("steam".to_string(), true);
    let command = pass.step(SyncEvent::Committed);
    assert!(matches!(command, SyncCommand::Finish { outcome: Err(SyncError::AddonCapabilityFault) }));
    let again = pass.step(SyncEvent::Scanned(vec![]));
    assert!(matches!(again, SyncCommand::Finish { outcome: Err(SyncError::AddonCapabilityFault) }));

    let (mut pass, _) = SyncPass::start("steam".to_string(), true);
    pass.step(SyncEvent::Scanned(vec![scanned("steam", "10")]));
    pass.step(SyncEvent::ExistingGames(vec![]));
    pass.step(SyncEvent::Metadata(vec![]));
    pass.step(SyncEvent::ExistingGenres(vec![]));
    assert!(matches!(pass.step(SyncEvent::Began), SyncCommand::InsertGame { .. }));
    assert_eq!(pass.stage(), SyncStage::WritingGames);
    assert!(matches!(pass.step(SyncEvent::Began), SyncCommand::Rollback));
    assert_eq!(pass.stage(), SyncStage::RollingBack);
    assert!(matches!(pass.step(SyncEvent::Failed), SyncCommand::Finish { outcome: Err(SyncError::TransactionError) }));
}
