use gami::fetch::{FetchError, FetchOutcome};
use gami::models::{GameInstallStatus, GameLibraryRef, ScannedGameLibraryMetadata};
use gami::steam::library::{
    local_install_status, local_record, local_scan_only, owned_games_url, owned_record, scan_owned,
    status_of, steam_url, wrap_in_quotes, Manifest, ID,
};
use gami::steam::models::{
    AppDetails, AppDetailsData, AppGenre, AppReleaseDate, Config, OwnedGame, OwnedGames, Response,
};
use gami::steam::store::{
    is_month, parse_release_date, release_date_from_captures, to_month, with_query_pair,
    StoreMetadataScanner,
    RELEASE_DATE_RAW,
};
use gami::steam::transfer::{Collector, ResponseHandler, ResponseJsonError};

#[test]
fn to_month_knows_the_twelve_abbreviations() {
    let months = ["Jan", "Feb", "Mar", "Apr", "May", "Jun", "Jul", "Aug", "Sep", "Oct", "Nov", "Dec"];
    for (i, month) in months.iter().enumerate() {
        assert!(is_month(month));
        assert_eq!(to_month(month), i as u8 + 1);
    }
}

#[test]
fn is_month_refuses_what_is_no_abbreviation() {
    assert!(!is_month("January"));
    assert!(!is_month("Sept"));
    assert!(!is_month("jan"));
    assert!(!is_month(""));
    assert!(!is_month("Foo"));
    assert!(!is_month("Dec "));
}

#[test]
fn parse_release_date_reads_both_forms() {
    assert_eq!(parse_release_date("14 Mar, 2015"), Some(1426291200));
    assert_eq!(parse_release_date("Mar 14, 2015"), Some(1426291200));
    assert_eq!(parse_release_date("1 Jan, 1970"), Some(0));
    assert_eq!(parse_release_date("Dec 31, 1969"), Some(-86400));
    assert_eq!(parse_release_date("29 Feb, 2016"), Some(1456704000));
}

#[test]
fn parse_release_date_refuses_what_names_no_day() {
    assert_eq!(parse_release_date(""), None);
    assert_eq!(parse_release_date("Coming soon"), None);
    assert_eq!(parse_release_date("2015-03-14"), None);
    assert_eq!(parse_release_date("29 Feb, 2015"), None);
    assert_eq!(parse_release_date("14 March, 2015"), None);
    assert_eq!(parse_release_date("Mar 32, 2015"), None);
    assert_eq!(parse_release_date("Mar 14, 99999999999"), None);
    assert_eq!(parse_release_date("Mar 99999999999, 2015"), None);
    assert_eq!(parse_release_date("Q1 2015"), None);
}

#[test]
fn parse_release_date_follows_the_pattern_as_written() {
    // The first form is tied to the start of the text only, the second to its end only.
    assert_eq!(parse_release_date("14 Mar, 2015 (early access)"), Some(1426291200));
    assert_eq!(parse_release_date("Released Mar 14, 2015"), Some(1426291200));
    assert_eq!(parse_release_date("Mar 14, 2015 or so"), None);
    assert_eq!(parse_release_date("about 14 Mar, 2015"), None);
}

#[test]
fn release_date_from_captures_picks_the_form_that_matched() {
    let some = |text: &str| Some(text.to_string());
    let day_first = vec![some("14"), some("Mar"), some("2015"), None, None, None];
    assert_eq!(release_date_from_captures(&day_first), Some(1426291200));
    let month_first = vec![None, None, None, some("Mar"), some("14"), some("2015")];
    assert_eq!(release_date_from_captures(&month_first), Some(1426291200));
    assert_eq!(release_date_from_captures(&vec![None, None, None, None, None, None]), None);
    assert_eq!(release_date_from_captures(&vec![some("14"), some("Mar"), some("2015")]), None);
    assert_eq!(release_date_from_captures(&vec![]), None);
    let bad_month = vec![some("14"), some("Mars"), some("2015"), None, None, None];
    assert_eq!(release_date_from_captures(&bad_month), None);
    let year_too_large = vec![some("14"), some("Mar"), some("2147483648"), None, None, None];
    assert_eq!(release_date_from_captures(&year_too_large), None);
    let no_digits = vec![some("x"), some("Mar"), some("2015"), None, None, None];
    assert_eq!(release_date_from_captures(&no_digits), None);
}

#[test]
fn the_release_date_pattern_has_six_groups() {
    assert_eq!(RELEASE_DATE_RAW.matches('(').count(), 6);
}

#[test]
fn request_url_asks_for_the_library_id() {
    let game = GameLibraryRef { name: "Game", library_type: "steam", library_id: "1502970" };
    assert_eq!(
        StoreMetadataScanner::request_url(&game).as_deref(),
        Some("https://store.steampowered.com/api/appdetails?appids=1502970")
    );
    let odd = GameLibraryRef { name: "Game", library_type: "steam", library_id: "a b&c" };
    assert_eq!(
        StoreMetadataScanner::request_url(&odd).as_deref(),
        Some("https://store.steampowered.com/api/appdetails?appids=a+b%26c")
    );
}

#[test]
fn with_query_pair_appends_and_refuses_what_is_no_url() {
    assert_eq!(with_query_pair("https://example.com/a?x=1", "y", "2").as_deref(), Some("https://example.com/a?x=1&y=2"));
    assert_eq!(with_query_pair("https://example.com", "k", "").as_deref(), Some("https://example.com/?k="));
    assert_eq!(with_query_pair("not a url", "k", "v"), None);
    assert_eq!(with_query_pair("", "k", "v"), None);
}

#[test]
fn owned_games_url_carries_the_four_pairs_in_order() {
    assert_eq!(
        owned_games_url("KEY", "7656").as_deref(),
        Some("https://api.steampowered.com/IPlayerService/GetOwnedGames/v0001?key=KEY&steamid=7656&include_appinfo=1&format=json")
    );
}

fn details() -> AppDetailsData {
    AppDetailsData {
        name: "Atelier Sophie".to_string(),
        detailed_description: "<p>Alchemy</p>".to_string(),
        short_description: "short".to_string(),
        about_the_game: "about".to_string(),
        website: None,
        developers: Some(vec!["Gust".to_string()]),
        publishers: None,
        genres: Some(vec![
            AppGenre { id: "3".to_string(), description: "RPG".to_string() },
            AppGenre { id: "23".to_string(), description: "Indie".to_string() },
        ]),
        release_date: Some(AppReleaseDate { coming_soon: false, date: Some("14 Mar, 2015".to_string()) }),
        header_image: Some("http://header".to_string()),
        capsule_image: Some("http://capsule".to_string()),
        capsule_imagev5: None,
    }
}

#[test]
fn map_metadata_takes_what_the_store_says() {
    let metadata = StoreMetadataScanner::map_metadata(Some(AppDetails { success: true, data: Some(details()) }));
    assert_eq!(metadata.description.as_deref(), Some("<p>Alchemy</p>"));
    assert_eq!(metadata.header_url.as_deref(), Some("http://header"));
    assert_eq!(metadata.cover_url.as_deref(), Some("http://capsule"));
    assert_eq!(metadata.icon_url, None);
    assert_eq!(metadata.release_date_timestamp, Some(1426291200));
    assert_eq!(metadata.last_played_timestamp, None);
    assert_eq!(metadata.genres.len(), 2);
    assert_eq!(metadata.genres[0].library_id, "3");
    assert_eq!(metadata.genres[0].name, "RPG");
    assert_eq!(metadata.genres[1].library_id, "23");
    assert!(metadata.developers.is_empty());
    assert!(metadata.tags.is_empty());
}

#[test]
fn map_metadata_treats_empty_parts_as_absent() {
    let mut data = details();
    data.detailed_description = String::new();
    data.genres = None;
    data.release_date = Some(AppReleaseDate { coming_soon: true, date: Some(String::new()) });
    data.header_image = None;
    let metadata = StoreMetadataScanner::metadata_of(data);
    assert_eq!(metadata.description, None);
    assert!(metadata.genres.is_empty());
    assert_eq!(metadata.release_date_timestamp, None);
    assert_eq!(metadata.header_url, None);

    let mut data = details();
    data.release_date = Some(AppReleaseDate { coming_soon: true, date: Some("Coming soon".to_string()) });
    assert_eq!(StoreMetadataScanner::metadata_of(data).release_date_timestamp, None);
    let mut data = details();
    data.release_date = Some(AppReleaseDate { coming_soon: false, date: None });
    assert_eq!(StoreMetadataScanner::metadata_of(data).release_date_timestamp, None);
    let mut data = details();
    data.release_date = None;
    assert_eq!(StoreMetadataScanner::metadata_of(data).release_date_timestamp, None);
}

#[test]
fn a_day_that_32_bits_cannot_hold_is_no_release_date() {
    let mut data = details();
    data.release_date = Some(AppReleaseDate { coming_soon: false, date: Some("Dec 31, 1969".to_string()) });
    assert_eq!(StoreMetadataScanner::metadata_of(data).release_date_timestamp, None);
    let mut data = details();
    data.release_date = Some(AppReleaseDate { coming_soon: false, date: Some("Feb 8, 2106".to_string()) });
    assert_eq!(StoreMetadataScanner::metadata_of(data).release_date_timestamp, None);
    let mut data = details();
    data.release_date = Some(AppReleaseDate { coming_soon: false, date: Some("Feb 7, 2106".to_string()) });
    assert_eq!(StoreMetadataScanner::metadata_of(data).release_date_timestamp, Some(4294944000));
    let mut data = details();
    data.release_date = Some(AppReleaseDate { coming_soon: false, date: Some("1 Jan, 1970".to_string()) });
    assert_eq!(StoreMetadataScanner::metadata_of(data).release_date_timestamp, Some(0));
    let mut data = details();
    data.release_date = Some(AppReleaseDate { coming_soon: false, date: Some("14 Sept, 2015".to_string()) });
    assert_eq!(StoreMetadataScanner::metadata_of(data).release_date_timestamp, None);
}

#[test]
fn an_answer_without_details_is_valid_and_empty() {
    for answer in [None, Some(AppDetails { success: true, data: None }), Some(AppDetails { success: false, data: None })] {
        let metadata = StoreMetadataScanner::map_metadata(answer);
        assert_eq!(metadata.description, None);
        assert!(metadata.genres.is_empty());
        assert_eq!(metadata.icon_url, None);
        assert_eq!(metadata.header_url, None);
        assert_eq!(metadata.cover_url, None);
        assert_eq!(metadata.release_date_timestamp, None);
    }
}

#[test]
fn a_body_that_cannot_be_decoded_is_a_failed_fetch() {
    for error in [ResponseJsonError::JsonError, ResponseJsonError::Utf8Error] {
        match StoreMetadataScanner::outcome_of(Err(error)) {
            FetchOutcome::Failed(FetchError::Decode) => {}
            other => panic!("unexpected outcome {:?}", other),
        }
    }
    match StoreMetadataScanner::outcome_of(Ok(None)) {
        FetchOutcome::Fetched(metadata) => assert_eq!(metadata.description, None),
        other => panic!("unexpected outcome {:?}", other),
    }
    match StoreMetadataScanner::outcome_of(Ok(Some(AppDetails { success: true, data: Some(details()) }))) {
        FetchOutcome::Fetched(metadata) => assert_eq!(metadata.genres.len(), 2),
        other => panic!("unexpected outcome {:?}", other),
    }
}

#[test]
fn steam_urls_and_quotes() {
    assert_eq!(ID, "steam");
    assert_eq!(steam_url("rungameid", "1502970"), "steam://rungameid/1502970");
    assert_eq!(steam_url("install", "10"), "steam://install/10");
    assert_eq!(steam_url("uninstall", ""), "steam://uninstall/");
    assert_eq!(wrap_in_quotes("steam://rungameid/1"), "\"steam://rungameid/1\"");
    assert_eq!(wrap_in_quotes(""), "\"\"");
}

#[test]
fn local_scan_only_without_key_or_user() {
    let config = Config { api_key: "KEY".to_string(), steam_id: "1".to_string() };
    assert!(!local_scan_only(&config, "7656"));
    assert!(local_scan_only(&config, ""));
    assert!(local_scan_only(&Config::default(), "7656"));
    assert!(local_scan_only(&Config::default(), ""));
}

#[test]
fn local_install_status_by_byte_counts() {
    assert_eq!(local_install_status(None, None), GameInstallStatus::Queued);
    assert_eq!(local_install_status(None, Some("10")), GameInstallStatus::Queued);
    assert_eq!(local_install_status(Some("10"), Some("10")), GameInstallStatus::Installed);
    assert_eq!(local_install_status(Some("0"), Some("0")), GameInstallStatus::Installed);
    assert_eq!(local_install_status(Some("5"), Some("10")), GameInstallStatus::Installing);
    assert_eq!(local_install_status(Some("5"), None), GameInstallStatus::Installing);
}

#[test]
fn local_record_reads_the_manifest() {
    let manifest = Manifest {
        app_id: "1502970".to_string(),
        name: "Atelier Sophie".to_string(),
        last_played: Some("1700000000".to_string()),
        bytes_downloaded: Some("100".to_string()),
        bytes_to_download: Some("100".to_string()),
    };
    let record = local_record(&manifest, Some("file:///icon.jpg".to_string()));
    assert_eq!(record.name, "Atelier Sophie");
    assert_eq!(record.library_type, "steam");
    assert_eq!(record.library_id, "1502970");
    assert_eq!(record.last_played_epoch, Some(1700000000));
    assert_eq!(record.install_status, GameInstallStatus::Installed);
    assert_eq!(record.playtime_secs, 0);
    assert_eq!(record.icon_url.as_deref(), Some("file:///icon.jpg"));

    let bare = Manifest {
        app_id: "1".to_string(),
        name: "x".to_string(),
        last_played: Some("never".to_string()),
        bytes_downloaded: None,
        bytes_to_download: None,
    };
    let record = local_record(&bare, None);
    assert_eq!(record.last_played_epoch, None);
    assert_eq!(record.install_status, GameInstallStatus::Queued);
    assert_eq!(record.icon_url, None);
}

fn local(id: &str, status: GameInstallStatus) -> ScannedGameLibraryMetadata {
    ScannedGameLibraryMetadata {
        library_type: "steam".to_string(),
        library_id: id.to_string(),
        install_status: status,
        ..ScannedGameLibraryMetadata::default()
    }
}

fn owned(appid: u64, name: &str) -> OwnedGame {
    OwnedGame {
        appid,
        name: name.to_string(),
        playtime_forever: 120,
        img_icon_url: String::new(),
        rtime_last_played: 1700000000,
        playtime_disconnected: 0,
    }
}

#[test]
fn status_of_takes_the_last_record_with_the_id() {
    let records = vec![
        local("10", GameInstallStatus::Installing),
        local("20", GameInstallStatus::Installed),
        local("10", GameInstallStatus::Installed),
    ];
    assert_eq!(status_of(&records, "10"), GameInstallStatus::Installed);
    assert_eq!(status_of(&records, "20"), GameInstallStatus::Installed);
    assert_eq!(status_of(&records, "30"), GameInstallStatus::InLibrary);
    assert_eq!(status_of(&vec![], "10"), GameInstallStatus::InLibrary);
}

#[test]
fn scan_owned_reports_every_owned_game() {
    let response: Response<OwnedGames> =
        Response { response: OwnedGames { games: vec![owned(10, "Ten"), owned(1502970, "Sophie"), owned(0, "Zero")] } };
    let records = vec![local("1502970", GameInstallStatus::Installed)];
    let icons = vec![Some("file:///10.jpg".to_string()), None];
    let scan = scan_owned(&response.response.games, &records, &icons);
    assert_eq!(scan.len(), 3);
    assert_eq!(scan[0].library_id, "10");
    assert_eq!(scan[0].name, "Ten");
    assert_eq!(scan[0].library_type, "steam");
    assert_eq!(scan[0].install_status, GameInstallStatus::InLibrary);
    assert_eq!(scan[0].icon_url.as_deref(), Some("file:///10.jpg"));
    assert_eq!(scan[0].last_played_epoch, Some(1700000000));
    assert_eq!(scan[0].playtime_secs, 120);
    assert_eq!(scan[1].library_id, "1502970");
    assert_eq!(scan[1].install_status, GameInstallStatus::Installed);
    assert_eq!(scan[1].icon_url, None);
    assert_eq!(scan[2].library_id, "0");
    assert_eq!(scan[2].icon_url, None);
    let one = owned_record(&owned(u64::MAX, "Max"), &records, None);
    assert_eq!(one.library_id, "18446744073709551615");
}

#[test]
fn collectors_append_what_they_are_given() {
    let mut collector = Collector::default();
    assert_eq!(collector.write(b"{\"a\":"), 5);
    assert_eq!(collector.write(b""), 0);
    assert_eq!(collector.write(b"1}"), 2);
    assert_eq!(collector.as_slice(), b"{\"a\":1}");
    assert_eq!(collector.0, b"{\"a\":1}");

    let mut handler = ResponseHandler::default();
    assert_eq!(handler.len(), 0);
    assert_eq!(handler.write(b"ab"), 2);
    assert_eq!(handler.write(b"c"), 1);
    assert_eq!(handler.as_ref(), b"abc");
    assert_eq!(handler.clone().as_ref(), b"abc");
    assert_eq!(handler.len(), 3);
}
