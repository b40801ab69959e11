use gami::models::{
    CompletionStatus, EditableEnum, GameData, GameInstallStatus, GameLibraryRef, GameMetadata,
    GenreData, ScannedGameLibraryMetadata,
};
use gami::time::CalendarDate;

fn scanned(id: &str) -> ScannedGameLibraryMetadata {
    ScannedGameLibraryMetadata {
        name: format!("Game {}", id),
        library_type: "steam".to_string(),
        library_id: id.to_string(),
        last_played_epoch: Some(1431648000),
        install_status: GameInstallStatus::Installed,
        playtime_secs: 3600,
        icon_url: Some("file:///icons/a.jpg".to_string()),
    }
}

#[test]
fn scanned_record_becomes_catalog_game() {
    let game = scanned("30").into_game_data();
    assert_eq!(game.id, 0);
    assert_eq!(game.name, "Game 30");
    assert_eq!(game.library_type, "steam");
    assert_eq!(game.library_id, "30");
    assert_eq!(game.description, "");
    assert!(game.genres.is_empty());
    assert_eq!(game.play_time_secs, 3600);
    assert_eq!(game.install_status, GameInstallStatus::Installed);
    assert_eq!(game.last_played, Some(1431648000));
    assert_eq!(game.release_date, None);
    assert_eq!(game.icon_url.as_deref(), Some("file:///icons/a.jpg"));
    assert_eq!(game.header_url, None);
    assert_eq!(game.cover_url, None);
    assert_eq!(game.completion_status, CompletionStatus::Backlog);
}

#[test]
fn scanned_record_with_times_out_of_range() {
    let mut record = scanned("1");
    record.playtime_secs = u64::MAX;
    record.last_played_epoch = Some(u64::MAX);
    let game = record.into_game_data();
    assert_eq!(game.play_time_secs, i64::MAX);
    assert_eq!(game.last_played, None);
}

#[test]
fn default_scan_is_empty_and_in_library() {
    let record = ScannedGameLibraryMetadata::default();
    assert_eq!(record.name, "");
    assert_eq!(record.library_type, "");
    assert_eq!(record.library_id, "");
    assert_eq!(record.last_played_epoch, None);
    assert_eq!(record.install_status, GameInstallStatus::InLibrary);
    assert_eq!(record.playtime_secs, 0);
    assert_eq!(record.icon_url, None);
    assert_eq!(GameInstallStatus::default(), GameInstallStatus::InLibrary);
}

#[test]
fn extend_overwrites_with_what_metadata_holds() {
    let mut game = scanned("30").into_game_data();
    let mut metadata = GameMetadata::default();
    metadata.description = Some("A game".to_string());
    metadata.genres = vec![GenreData { name: "Action".to_string(), library_id: "1".to_string() }];
    metadata.icon_url = Some("http://icon".to_string());
    metadata.header_url = Some("http://header".to_string());
    metadata.cover_url = Some("http://cover".to_string());
    metadata.release_date_timestamp = Some(1431648000);
    game.extend(metadata);
    assert_eq!(game.description, "A game");
    assert_eq!(game.genres.len(), 1);
    assert_eq!(game.genres[0].name, "Action");
    assert_eq!(game.genres[0].library_id, "1");
    assert_eq!(game.icon_url.as_deref(), Some("http://icon"));
    assert_eq!(game.header_url.as_deref(), Some("http://header"));
    assert_eq!(game.cover_url.as_deref(), Some("http://cover"));
    assert_eq!(game.release_date, Some(CalendarDate { year: 2015, month: 5, day: 15 }));
    assert_eq!(game.name, "Game 30");
    assert_eq!(game.library_id, "30");
    assert_eq!(game.last_played, Some(1431648000));
}

#[test]
fn extend_with_absent_fields_leaves_the_game_untouched() {
    let mut game = scanned("30").into_game_data();
    game.description = "known".to_string();
    game.header_url = Some("http://known-header".to_string());
    game.release_date = Some(CalendarDate { year: 2001, month: 2, day: 3 });
    game.genres = vec![GenreData { name: "RPG".to_string(), library_id: "3".to_string() }];
    game.extend(GameMetadata::default());
    assert_eq!(game.description, "known");
    assert_eq!(game.icon_url.as_deref(), Some("file:///icons/a.jpg"));
    assert_eq!(game.header_url.as_deref(), Some("http://known-header"));
    assert_eq!(game.cover_url, None);
    assert_eq!(game.release_date, Some(CalendarDate { year: 2001, month: 2, day: 3 }));
    assert_eq!(game.genres.len(), 1);
    assert_eq!(game.genres[0].library_id, "3");
}

#[test]
fn extend_release_date_at_the_ends_of_the_range() {
    let mut game = GameData::default();
    let mut metadata = GameMetadata::default();
    metadata.release_date_timestamp = Some(0);
    game.extend(metadata);
    assert_eq!(game.release_date, Some(CalendarDate { year: 1970, month: 1, day: 1 }));
    let mut metadata = GameMetadata::default();
    metadata.release_date_timestamp = Some(u32::MAX);
    game.extend(metadata);
    assert_eq!(game.release_date, Some(CalendarDate { year: 2106, month: 2, day: 7 }));
}

#[test]
fn metadata_normalized_trims_genre_ids_only() {
    let mut metadata = GameMetadata::default();
    metadata.description = Some("  text  ".to_string());
    metadata.genres = vec![
        GenreData { name: " Action ".to_string(), library_id: " 1  ".to_string() },
        GenreData { name: "RPG".to_string(), library_id: "3".to_string() },
    ];
    let held = metadata.normalized();
    assert_eq!(held.description.as_deref(), Some("  text  "));
    assert_eq!(held.genres[0].library_id, "1");
    assert_eq!(held.genres[0].name, " Action ");
    assert_eq!(held.genres[1].library_id, "3");
}

#[test]
fn references_compare_by_contents() {
    let game = scanned("30").into_game_data();
    let owned = game.get_owned_ref();
    assert_eq!(owned.name, "Game 30");
    assert_eq!(owned.library_type, "steam");
    assert_eq!(owned.library_id, "30");
    let other = GameLibraryRef { name: "Game 30", library_type: "steam", library_id: "30" };
    assert!(owned.as_ref().same_as(&other));
    assert!(other.to_owned().same_as(&owned));
    let different = GameLibraryRef { name: "Game 30", library_type: "steam", library_id: "31" };
    assert!(!owned.as_ref().same_as(&different));
    assert!(game.get_ref().same_as(&other));
    assert_eq!(other.label(), "Game 30 (steam: 30)");
    assert_eq!(GameLibraryRef { name: "", library_type: "", library_id: "" }.label(), " (: )");
}

#[test]
fn labels_of_the_status_enums() {
    assert_eq!(GameInstallStatus::Installed.label(), "Installed");
    assert_eq!(GameInstallStatus::Installing.label(), "Installing");
    assert_eq!(GameInstallStatus::InLibrary.label(), "In library");
    assert_eq!(GameInstallStatus::Queued.label(), "Queued");
    assert_eq!(GameInstallStatus::Uninstalling.label(), "Uninstalling");
    assert_eq!(CompletionStatus::OnHold.label(), "On Hold");
    assert_eq!(CompletionStatus::default(), CompletionStatus::Backlog);
    assert_eq!(
        CompletionStatus::all(),
        vec![
            CompletionStatus::Backlog,
            CompletionStatus::Playing,
            CompletionStatus::Played,
            CompletionStatus::OnHold
        ]
    );
}
