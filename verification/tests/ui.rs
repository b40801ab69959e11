use gami::actions::GameAction;
use gami::catalog::{Direction, GameTextField, Genre, SortField, SortOrder};
use gami::models::{CompletionStatus, GameData, GameInstallStatus, GenreData, PluginMetadata};
use gami::plugin::ConfigsSchema;
use gami::table::StringTable;
use gami::ui::add_ons::{AddOnEffect, AddOnMessage, AddOns};
use gami::ui::app::{App, AppEffect, AppState, AppTitle, Key, Message as AppMessage};
use gami::ui::app_page::{AppPage, PageEffect, PageMessage};
use gami::ui::counter::{Counter, CounterMessage};
use gami::ui::library::{
    FilterMessage, InstallStatus, LibraryEffect, LibraryGame, LibraryPage, LibraryViewType,
    Message as LibraryMessage,
};
use gami::ui::library_table::{ColumnKind, LibraryTable};
use gami::ui::nav_view::{page_location, page_name, Message as NavMessage, NavLocation, NavView};
use gami::ui::number_input::{counted_down, counted_up, parse_i32, typed, NumberConsts};
use gami::ui::settings::{
    AppearanceSettings, Message as SettingsMessage, MyTheme, Settings, SettingsEffect, SettingsPage, TabId,
};
use gami::ui::tools::{Message as ToolsMessage, ToolsEffect, ToolsPage};

fn game(id: i32, library_id: &str) -> GameData {
    let mut game = GameData::default();
    game.id = id;
    game.name = format!("Game {}", library_id);
    game.library_type = "steam".to_string();
    game.library_id = library_id.to_string();
    game
}

#[test]
fn the_counter_counts_and_wraps() {
    let mut counter = Counter::default();
    assert_eq!(counter.value(), 0);
    counter.update(CounterMessage::Increment);
    counter.update(CounterMessage::Increment);
    assert_eq!(counter.value(), 2);
    counter.update(CounterMessage::Decrement);
    counter.update(CounterMessage::Decrement);
    counter.update(CounterMessage::Decrement);
    assert_eq!(counter.value(), -1);
    assert_eq!(counted_up(i32::MAX), i32::MIN);
    assert_eq!(counted_down(i32::MIN), i32::MAX);
    assert_eq!(counted_up(41), 42);
    assert_eq!(counted_down(0), -1);
    assert_eq!(<i32 as NumberConsts>::ONE, 1);
}

#[test]
fn the_number_field_keeps_its_number_on_bad_text() {
    assert_eq!(parse_i32("12"), Some(12));
    assert_eq!(parse_i32("-12"), Some(-12));
    assert_eq!(parse_i32("+12"), Some(12));
    assert_eq!(parse_i32("2147483647"), Some(i32::MAX));
    assert_eq!(parse_i32("-2147483648"), Some(i32::MIN));
    assert_eq!(parse_i32("2147483648"), None);
    assert_eq!(parse_i32("-2147483649"), None);
    assert_eq!(parse_i32(""), None);
    assert_eq!(parse_i32("-"), None);
    assert_eq!(parse_i32("+"), None);
    assert_eq!(parse_i32("--1"), None);
    assert_eq!(parse_i32("1 "), None);
    for text in ["0", "-0", "7", "+7", "x", "", "99999999999", "-2147483648", "١٢"] {
        assert_eq!(parse_i32(text), text.parse::<i32>().ok(), "{:?}", text);
    }
    assert_eq!(typed("15", 3), 15);
    assert_eq!(typed("fifteen", 3), 3);
}

#[test]
fn the_navigation_bar_shows_one_of_five_pages() {
    let mut nav = NavView::default();
    assert_eq!(nav.active_item(), 0);
    assert_eq!(nav.get_name(), "Library");
    nav.update(NavMessage::NavSelected(4));
    assert_eq!(nav.get_name(), "Settings");
    nav.update(NavMessage::NavSelected(5));
    assert_eq!(nav.active_item(), 4);
    nav.update(NavMessage::NavSelected(usize::MAX));
    assert_eq!(nav.get_name(), "Settings");
    assert!(nav.can_select(0));
    assert!(!nav.can_select(4));
    assert!(!nav.can_select(5));
    let names: Vec<_> = (0..6).map(page_name).collect();
    assert_eq!(
        names,
        vec![Some("Library"), Some("Achievements"), Some("Add-ons"), Some("Tools"), Some("Settings"), None]
    );
    let ends: Vec<_> = (0..6).map(page_location).collect();
    assert_eq!(
        ends,
        vec![
            Some(NavLocation::Top),
            Some(NavLocation::Top),
            Some(NavLocation::Bottom),
            Some(NavLocation::Bottom),
            Some(NavLocation::Bottom),
            None
        ]
    );
}

#[test]
fn the_tools_page_clears_the_catalog() {
    let mut page = ToolsPage::default();
    assert_eq!(page.update(ToolsMessage::ClearDatabase), ToolsEffect::ClearCatalog);
    assert_eq!(page.update(ToolsMessage::NoOp), ToolsEffect::Nothing);
}

#[test]
fn the_settings_page() {
    let mut page = SettingsPage::default();
    assert_eq!(page.active_tab(), TabId::General);
    assert_eq!(page.settings(), Settings::default());
    assert_eq!(Settings::default().appearance.theme, MyTheme::Dark);
    assert_eq!(AppearanceSettings::default().theme, MyTheme::default());
    assert_eq!(page.update(SettingsMessage::LoadSettings), SettingsEffect::Load);
    assert_eq!(page.update(SettingsMessage::TabSelected(TabId::Appearance)), SettingsEffect::Nothing);
    assert_eq!(page.active_tab(), TabId::Appearance);
    let nord = Settings { appearance: AppearanceSettings { theme: MyTheme::Nord } };
    assert_eq!(page.update(SettingsMessage::Changed(nord)), SettingsEffect::Save(nord));
    assert_eq!(page.settings(), nord);
    let ferra = Settings { appearance: AppearanceSettings { theme: MyTheme::Ferra } };
    assert_eq!(page.update(SettingsMessage::Loaded(ferra)), SettingsEffect::Nothing);
    assert_eq!(page.settings(), ferra);
    assert_eq!(page.active_tab(), TabId::Appearance);
}

#[test]
fn the_themes() {
    let all = MyTheme::all();
    assert_eq!(all.len(), 22);
    assert_eq!(all[0], MyTheme::Light);
    assert_eq!(all[1], MyTheme::Dark);
    assert_eq!(all[21], MyTheme::Ferra);
    assert_eq!(MyTheme::CatppuccinFrappe.label(), "Catppuccin Frappé");
    assert_eq!(MyTheme::TokyoNightStorm.label(), "Tokyo Night Storm");
    let mut labels: Vec<&str> = all.iter().map(|t| t.label()).collect();
    labels.sort();
    labels.dedup();
    assert_eq!(labels.len(), 22);
}

#[test]
fn the_table_has_four_columns() {
    let table = LibraryTable::new();
    assert_eq!(
        table.columns,
        vec![ColumnKind::Name, ColumnKind::Playtime, ColumnKind::LastPlayed, ColumnKind::Description]
    );
    assert!(table.rows.is_empty());
    assert_eq!(ColumnKind::LastPlayed.label(), "Last Played");
    assert_eq!(ColumnKind::Playtime.label(), "Time Played");
}

#[test]
fn the_lines_of_the_list() {
    let mut g = game(1, "10");
    g.install_status = GameInstallStatus::Queued;
    let line = LibraryGame::of_game(&g);
    assert_eq!(line.install_status(), InstallStatus::InProgress);
    assert_eq!(line.name(), "Game 10");
    g.install_status = GameInstallStatus::Installed;
    assert_eq!(LibraryGame::of_game(&g).install_status(), InstallStatus::Installed);
    g.install_status = GameInstallStatus::InLibrary;
    assert_eq!(LibraryGame::of_game(&g).install_status(), InstallStatus::InLibrary);
    assert_eq!(LibraryViewType::Grid.label(), "Grid");
}

#[test]
fn the_library_page_lists_and_selects() {
    let mut page = LibraryPage::new();
    assert_eq!(page.view_type(), LibraryViewType::List);
    assert!(page.games().is_empty());
    assert!(page.current().is_none());
    assert!(matches!(page.update(LibraryMessage::RefreshGames), LibraryEffect::SyncLibrary));
    match page.update(LibraryMessage::ReloadCache) {
        LibraryEffect::ReloadCache { args, filter } => {
            assert_eq!(args.search, "");
            assert!(!filter.installed);
        }
        other => panic!("unexpected effect {:?}", other),
    }
    let games = vec![game(1, "10"), game(2, "20"), game(3, "30")];
    assert!(matches!(page.update(LibraryMessage::CacheReloaded(games)), LibraryEffect::Nothing));
    assert_eq!(page.games().len(), 3);
    assert_eq!(page.table().rows.len(), 3);
    assert_eq!(page.current().unwrap().library_id, "10");

    page.update(LibraryMessage::MoveInDir(Direction::Up));
    assert_eq!(page.curr_index(), 0);
    page.update(LibraryMessage::MoveInDir(Direction::Down));
    page.update(LibraryMessage::MoveInDir(Direction::Down));
    assert_eq!(page.curr_index(), 2);
    page.update(LibraryMessage::MoveInDir(Direction::Down));
    assert_eq!(page.curr_index(), 2);
    page.update(LibraryMessage::MoveInDir(Direction::Left));
    assert_eq!(page.curr_index(), 2);
    page.update(LibraryMessage::MoveInDir(Direction::Up));
    assert_eq!(page.curr_index(), 1);
    page.update(LibraryMessage::ViewSelected(LibraryViewType::Grid));
    page.update(LibraryMessage::MoveInDir(Direction::Up));
    assert_eq!(page.curr_index(), 1);
    page.update(LibraryMessage::ViewSelected(LibraryViewType::Table));
    page.update(LibraryMessage::MoveInDir(Direction::Up));
    assert_eq!(page.curr_index(), 0);

    page.update(LibraryMessage::SelectGame(1));
    page.update(LibraryMessage::UpdateLastPlayed(3, 500));
    assert_eq!(page.games()[1].last_played, None);
    page.update(LibraryMessage::UpdateLastPlayed(2, 500));
    assert_eq!(page.games()[1].last_played, Some(500));
    assert_eq!(page.table().rows[1].last_played, Some(500));
    assert_eq!(page.games()[0].last_played, None);
    page.update(LibraryMessage::SelectGame(9));
    assert!(page.current().is_none());
    page.update(LibraryMessage::UpdateLastPlayed(2, 900));
    assert_eq!(page.games()[1].last_played, Some(500));
    page.update(LibraryMessage::MoveInDir(Direction::Down));
    assert_eq!(page.curr_index(), 9);
}

#[test]
fn the_library_page_searches_sorts_and_filters() {
    let mut page = LibraryPage::new();
    match page.update(LibraryMessage::SearchChanged("sophie".to_string())) {
        LibraryEffect::ReloadCache { args, .. } => assert_eq!(args.search, "sophie"),
        other => panic!("unexpected effect {:?}", other),
    }
    match page.update(LibraryMessage::SortFieldChanged(SortField::Playtime)) {
        LibraryEffect::ReloadCache { args, .. } => {
            assert_eq!(args.sort.field, SortField::Playtime);
            assert_eq!(args.sort.order, SortOrder::Ascending);
            assert_eq!(args.search, "sophie");
        }
        other => panic!("unexpected effect {:?}", other),
    }
    match page.update(LibraryMessage::ToggleSortDirection) {
        LibraryEffect::ReloadCache { args, .. } => assert_eq!(args.sort.order, SortOrder::Descending),
        other => panic!("unexpected effect {:?}", other),
    }
    match page.update(LibraryMessage::Filter(FilterMessage::SetInstalled(true))) {
        LibraryEffect::ReloadCache { filter, .. } => assert!(filter.installed && !filter.not_installed),
        other => panic!("unexpected effect {:?}", other),
    }
    match page.update(LibraryMessage::Filter(FilterMessage::SetCompletionStatus(Some(CompletionStatus::Played)))) {
        LibraryEffect::ReloadCache { filter, .. } => {
            assert_eq!(filter.completion_status, Some(CompletionStatus::Played))
        }
        other => panic!("unexpected effect {:?}", other),
    }
    let genre = GenreData { name: "RPG".to_string(), library_id: "3".to_string() };
    match page.update(LibraryMessage::Filter(FilterMessage::SetGenreLibraryId(Some(genre)))) {
        LibraryEffect::ReloadCache { filter, .. } => assert_eq!(filter.genre_metadata_id.as_deref(), Some("3")),
        other => panic!("unexpected effect {:?}", other),
    }
    match page.update(LibraryMessage::Filter(FilterMessage::SetGenreLibraryId(None))) {
        LibraryEffect::ReloadCache { filter, .. } => assert_eq!(filter.genre_metadata_id, None),
        other => panic!("unexpected effect {:?}", other),
    }
    assert!(!page.display_filter());
    assert!(matches!(page.update(LibraryMessage::ToggleFilterDisplay), LibraryEffect::LoadGenres));
    assert!(page.display_filter());
    assert!(matches!(page.update(LibraryMessage::ToggleFilterDisplay), LibraryEffect::Nothing));
    assert!(!page.display_filter());
    let genres = vec![Genre { id: 1, name: "RPG".to_string(), metadata_source: "steam".to_string(), metadata_id: "3".to_string() }];
    assert!(matches!(page.update(LibraryMessage::OnGenresLoad(genres)), LibraryEffect::Nothing));
    assert!(matches!(page.update(LibraryMessage::ShowAddDialog), LibraryEffect::Nothing));
    assert!(matches!(page.update(LibraryMessage::NoOp), LibraryEffect::Nothing));
}

#[test]
fn the_library_page_acts_on_games_and_edits_them() {
    let mut page = LibraryPage::new();
    match page.update(LibraryMessage::GameAction(GameAction::Delete, game(7, "10"))) {
        LibraryEffect::DeleteGame(7) => {}
        other => panic!("unexpected effect {:?}", other),
    }
    match page.update(LibraryMessage::GameAction(GameAction::Play, game(7, "10"))) {
        LibraryEffect::Launch(target, 7) => {
            assert_eq!(target.library_type, "steam");
            assert_eq!(target.library_id, "10");
            assert_eq!(target.name, "Game 10");
        }
        other => panic!("unexpected effect {:?}", other),
    }
    assert!(matches!(
        page.update(LibraryMessage::GameAction(GameAction::Install, game(7, "10"))),
        LibraryEffect::Install(_)
    ));
    assert!(matches!(
        page.update(LibraryMessage::GameAction(GameAction::Uninstall, game(7, "10"))),
        LibraryEffect::Uninstall(_)
    ));
    assert!(matches!(page.update(LibraryMessage::SaveEditor), LibraryEffect::Nothing));
    page.update(LibraryMessage::EditorTextChanged(GameTextField::Name, "ignored".to_string()));
    assert!(page.edit_game().is_none());

    assert!(matches!(
        page.update(LibraryMessage::GameAction(GameAction::Edit, game(7, "10"))),
        LibraryEffect::Nothing
    ));
    page.update(LibraryMessage::EditorTextChanged(GameTextField::Name, "New name".to_string()));
    page.update(LibraryMessage::EditorTextChanged(GameTextField::Description, "Words".to_string()));
    page.update(LibraryMessage::EditorTextChanged(GameTextField::IconUrl, "http://icon".to_string()));
    page.update(LibraryMessage::EditorTextChanged(GameTextField::HeaderUrl, "http://header".to_string()));
    page.update(LibraryMessage::EditorTextChanged(GameTextField::CoverUrl, "http://cover".to_string()));
    page.update(LibraryMessage::EditorTextChanged(GameTextField::HeaderUrl, String::new()));
    page.update(LibraryMessage::EditorCompletionStatusChanged(CompletionStatus::Played));
    match page.update(LibraryMessage::SaveEditor) {
        LibraryEffect::SaveGame(saved) => {
            assert_eq!(saved.id, 7);
            assert_eq!(saved.name, "New name");
            assert_eq!(saved.description, "Words");
            assert_eq!(saved.icon_url.as_deref(), Some("http://icon"));
            assert_eq!(saved.header_url, None);
            assert_eq!(saved.cover_url.as_deref(), Some("http://cover"));
            assert_eq!(saved.completion_status, CompletionStatus::Played);
            assert_eq!(saved.library_id, "10");
        }
        other => panic!("unexpected effect {:?}", other),
    }
    assert!(page.edit_game().is_some());
    page.update(LibraryMessage::CloseEditor);
    assert!(page.edit_game().is_none());
}

fn addon(id: &str) -> PluginMetadata {
    PluginMetadata { id: id.to_string(), name: id.to_uppercase() }
}

#[test]
fn the_add_ons_page() {
    let (mut page, effect) = AddOns::new(vec![addon("steam"), addon("gog")]);
    assert!(matches!(effect, AddOnEffect::LoadConfig { ref id } if id == "steam"));
    assert_eq!(page.selected(), 0);
    assert_eq!(page.metadatas().len(), 2);
    match page.update(AddOnMessage::Selected(1)) {
        AddOnEffect::LoadConfig { id } => assert_eq!(id, "gog"),
        other => panic!("unexpected effect {:?}", other),
    }
    assert_eq!(page.selected(), 1);
    assert!(matches!(page.update(AddOnMessage::Selected(2)), AddOnEffect::Nothing));
    assert_eq!(page.selected(), 1);
    let schema: ConfigsSchema = StringTable::new();
    let mut config: StringTable<String> = StringTable::new();
    config.insert("apiKey".to_string(), "old".to_string());
    page.loaded(schema, config);
    assert_eq!(page.config().get("apiKey").map(String::as_str), Some("old"));
    match page.update(AddOnMessage::InputChanged("apiKey".to_string(), "new".to_string())) {
        AddOnEffect::SaveConfig { id } => assert_eq!(id, "gog"),
        other => panic!("unexpected effect {:?}", other),
    }
    assert_eq!(page.config().get("apiKey").map(String::as_str), Some("new"));
    assert_eq!(page.schema().len(), 0);

    let (mut empty, effect) = AddOns::new(vec![]);
    assert!(matches!(effect, AddOnEffect::Nothing));
    assert!(matches!(empty.update(AddOnMessage::Selected(0)), AddOnEffect::Nothing));
    assert!(matches!(
        empty.update(AddOnMessage::InputChanged("k".to_string(), "v".to_string())),
        AddOnEffect::Nothing
    ));
    assert_eq!(empty.config().get("k").map(String::as_str), Some("v"));
}

#[test]
fn a_page_takes_only_its_own_messages() {
    let mut page = AppPage::default();
    assert!(matches!(page, AppPage::Library(_)));
    assert!(!page.takes(&PageMessage::Tools(ToolsMessage::ClearDatabase)));
    assert!(!page.takes(&PageMessage::Settings(SettingsMessage::LoadSettings)));
    assert!(page.takes(&PageMessage::Library(LibraryMessage::RefreshGames)));
    assert!(matches!(
        page.update(PageMessage::Library(LibraryMessage::RefreshGames)),
        PageEffect::Library(LibraryEffect::SyncLibrary)
    ));
    let mut tools = AppPage::Tools(ToolsPage::default());
    assert!(tools.takes(&PageMessage::Tools(ToolsMessage::ClearDatabase)));
    assert!(matches!(
        tools.update(PageMessage::Tools(ToolsMessage::ClearDatabase)),
        PageEffect::Tools(ToolsEffect::ClearCatalog)
    ));
    assert!(!tools.takes(&PageMessage::Settings(SettingsMessage::LoadSettings)));
    assert!(!tools.takes(&PageMessage::Library(LibraryMessage::RefreshGames)));
    let mut settings = AppPage::Settings(SettingsPage::default());
    assert!(settings.takes(&PageMessage::Settings(SettingsMessage::LoadSettings)));
    assert!(!settings.takes(&PageMessage::Tools(ToolsMessage::NoOp)));
    assert!(matches!(
        settings.update(PageMessage::Settings(SettingsMessage::LoadSettings)),
        PageEffect::Settings(SettingsEffect::Load)
    ));
}

#[test]
fn the_desktop_takes_a_page_message_only_for_the_page_that_shows() {
    let mut app = App::new(vec![]);
    assert!(app.takes(&AppMessage::Startup1));
    assert!(app.takes(&AppMessage::KeyDown(Key::ArrowDown)));
    assert!(app.takes(&AppMessage::Page(PageMessage::Library(LibraryMessage::RefreshGames))));
    assert!(!app.takes(&AppMessage::Page(PageMessage::Tools(ToolsMessage::ClearDatabase))));
    app.update(AppMessage::NavView(NavMessage::NavSelected(3)));
    assert!(app.takes(&AppMessage::Page(PageMessage::Tools(ToolsMessage::ClearDatabase))));
    assert!(!app.takes(&AppMessage::Page(PageMessage::Library(LibraryMessage::RefreshGames))));
    assert!(matches!(
        app.update(AppMessage::Page(PageMessage::Tools(ToolsMessage::ClearDatabase))),
        AppEffect::Page(PageEffect::Tools(ToolsEffect::ClearCatalog))
    ));
}

#[test]
fn the_desktop_navigates() {
    let mut app = App::new(vec![addon("steam")]);
    assert_eq!(app.state, AppState::Desktop);
    assert!(app.shows_nav());
    assert_eq!(AppTitle.title(&app), "Library - Gami");
    assert!(matches!(
        app.update(AppMessage::Startup1),
        AppEffect::Page(PageEffect::Library(LibraryEffect::ReloadCache { .. }))
    ));
    assert!(matches!(app.update(AppMessage::Startup2), AppEffect::SetWindowIcon));

    assert!(matches!(app.update(AppMessage::NavView(NavMessageOf(3))), AppEffect::Nothing));
    assert!(matches!(app.page, AppPage::Tools(_)));
    assert_eq!(AppTitle.title(&app), "Tools - Gami");
    assert!(matches!(app.update(AppMessage::Startup1), AppEffect::Nothing));
    assert!(matches!(app.update(AppMessage::KeyDown(Key::ArrowDown)), AppEffect::Nothing));

    assert!(matches!(
        app.update(AppMessage::NavView(NavMessageOf(4))),
        AppEffect::Page(PageEffect::Settings(SettingsEffect::Load))
    ));
    assert_eq!(AppTitle.title(&app), "Settings - Gami");
    match app.update(AppMessage::NavView(NavMessageOf(2))) {
        AppEffect::Page(PageEffect::AddOns(AddOnEffect::LoadConfig { id })) => assert_eq!(id, "steam"),
        other => panic!("unexpected effect {:?}", other),
    }
    assert!(matches!(app.update(AppMessage::NavView(NavMessageOf(1))), AppEffect::Nothing));
    assert!(matches!(app.page, AppPage::Achievements(_)));
    assert_eq!(AppTitle.title(&app), "Achievements - Gami");

    assert!(matches!(app.update(AppMessage::NavView(NavMessageOf(7))), AppEffect::Nothing));
    assert!(matches!(app.page, AppPage::Achievements(_)));
    assert_eq!(app.nav.active_item(), 1);

    assert!(matches!(
        app.update(AppMessage::NavView(NavMessageOf(0))),
        AppEffect::Page(PageEffect::Library(LibraryEffect::ReloadCache { .. }))
    ));
    app.update(AppMessage::Page(PageMessage::Library(LibraryMessage::CacheReloaded(vec![
        game(1, "10"),
        game(2, "20"),
    ]))));
    app.update(AppMessage::KeyDown(Key::ArrowDown));
    match &app.page {
        AppPage::Library(page) => assert_eq!(page.curr_index(), 1),
        other => panic!("unexpected page {:?}", other),
    }
    app.update(AppMessage::KeyDown(Key::ArrowUp));
    app.update(AppMessage::KeyDown(Key::Other));
    match &app.page {
        AppPage::Library(page) => assert_eq!(page.curr_index(), 0),
        other => panic!("unexpected page {:?}", other),
    }
}

#[allow(non_snake_case)]
fn NavMessageOf(index: usize) -> NavMessage {
    NavMessage::NavSelected(index)
}

#[test]
fn the_desktop_switches_its_window_state() {
    let mut app = App::new(vec![]);
    app.update(AppMessage::KeyDown(Key::F11));
    assert_eq!(app.state, AppState::Fullscreen);
    assert!(!app.shows_nav());
    app.update(AppMessage::KeyDown(Key::F11));
    assert_eq!(app.state, AppState::Desktop);
    app.update(AppMessage::SwitchState(AppState::Fullscreen));
    assert_eq!(app.state, AppState::Fullscreen);
    app.update(AppMessage::SwitchState(AppState::Fullscreen));
    assert_eq!(app.state, AppState::Fullscreen);
    assert_eq!(AppState::default(), AppState::Desktop);
    assert!(matches!(app.update(AppMessage::NavView(NavMessageOf(2))), AppEffect::Nothing));
}
