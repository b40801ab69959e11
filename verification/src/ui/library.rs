//! The library page: the list of games, the selection, the search, the sort,
//! the filter and the editor of a game.
use crate::actions::GameAction;
use crate::catalog::{
    Direction, GameFilter, GameFilterView, GameSyncArgs, GameSyncArgsView, GameTextField, Genre,
    GenreRowView, Sort, SortField, SortOrder,
};
use crate::models::{
    CompletionStatus, GameData, GameDataView, GameInstallStatus, GameLibraryRefOwned, GameRefView,
    GenreData, GenreView,
};
use crate::plan::spec_ref_of;
use crate::table::StringTable;
use crate::ui::library_table::LibraryTable;
use vstd::prelude::*;

verus! {

/// The three ways to lay the games out.
#[derive(Debug, Clone, Copy, PartialEq, Eq, Structural)]
pub enum LibraryViewType {
    List,
    Table,
    Grid,
}

impl LibraryViewType {
    /// The words shown for the layout.
    pub open spec fn spec_label(self) -> Seq<char> {
        match self {
            LibraryViewType::List => "List"@,
            LibraryViewType::Table => "Table"@,
            LibraryViewType::Grid => "Grid"@,
        }
    }

    /// The words shown for the layout.
    pub fn label(&self) -> (words: &'static str)
        ensures
            words@ == self.spec_label(),
    {
        match self {
            LibraryViewType::List => "List",
            LibraryViewType::Table => "Table",
            LibraryViewType::Grid => "Grid",
        }
    }
}

/// The install status as the list shows it: installed, in the library, or
/// on its way from the one to the other.
#[derive(Debug, Clone, Copy, PartialEq, Eq, Structural)]
pub enum InstallStatus {
    Installed,
    InLibrary,
    InProgress,
}

/// The status that the list shows for an install status.
pub open spec fn spec_listed_status(status: GameInstallStatus) -> InstallStatus {
    match status {
        GameInstallStatus::Installed => InstallStatus::Installed,
        GameInstallStatus::InLibrary => InstallStatus::InLibrary,
        _ => InstallStatus::InProgress,
    }
}

/// The mathematical value of a line of the list.
pub struct LibraryGameView {
    pub install_status: InstallStatus,
    pub name: Seq<char>,
    pub library_id: Seq<char>,
    pub library_type: Seq<char>,
}

/// One line of the list of games.
#[derive(Debug)]
pub struct LibraryGame {
    install_status: InstallStatus,
    name: String,
    library_id: String,
    library_type: String,
}

impl View for LibraryGame {
    type V = LibraryGameView;

    closed spec fn view(&self) -> LibraryGameView {
        LibraryGameView {
            install_status: self.install_status,
            name: self.name@,
            library_id: self.library_id@,
            library_type: self.library_type@,
        }
    }
}

impl LibraryGame {
    /// The line that shows a game.
    pub fn of_game(game: &GameData) -> (line: LibraryGame)
        ensures
            line@ == (LibraryGameView {
                install_status: spec_listed_status(game@.install_status),
                name: game@.name,
                library_id: game@.library_id,
                library_type: game@.library_type,
            }),
    {
        LibraryGame {
            install_status: match game.install_status {
                GameInstallStatus::Installed => InstallStatus::Installed,
                GameInstallStatus::InLibrary => InstallStatus::InLibrary,
                _ => InstallStatus::InProgress,
            },
            name: game.name.clone(),
            library_id: game.library_id.clone(),
            library_type: game.library_type.clone(),
        }
    }

    /// The status that the line shows.
    pub fn install_status(&self) -> (status: InstallStatus)
        ensures
            status == self@.install_status,
    {
        self.install_status
    }

    /// The name that the line shows.
    pub fn name(&self) -> (name: &str)
        ensures
            name@ == self@.name,
    {
        self.name.as_str()
    }
}

/// The mathematical value of a change of the filter.
pub enum FilterMessageView {
    SetInstalled(bool),
    SetNotInstalled(bool),
    SetCompletionStatus(Option<CompletionStatus>),
    SetGenreLibraryId(Option<GenreView>),
}

/// A change of the filter.
#[derive(Debug)]
pub enum FilterMessage {
    SetInstalled(bool),
    SetNotInstalled(bool),
    SetCompletionStatus(Option<CompletionStatus>),
    SetGenreLibraryId(Option<GenreData>),
}

impl View for FilterMessage {
    type V = FilterMessageView;

    open spec fn view(&self) -> FilterMessageView {
        match self {
            FilterMessage::SetInstalled(on) => FilterMessageView::SetInstalled(*on),
            FilterMessage::SetNotInstalled(on) => FilterMessageView::SetNotInstalled(*on),
            FilterMessage::SetCompletionStatus(status) => FilterMessageView::SetCompletionStatus(
                *status,
            ),
            FilterMessage::SetGenreLibraryId(genre) => FilterMessageView::SetGenreLibraryId(
                genre.deep_view(),
            ),
        }
    }
}

/// The filter after a change.
pub open spec fn spec_update_filter(filter: GameFilterView, message: FilterMessageView) -> GameFilterView {
    match message {
        FilterMessageView::SetInstalled(on) => GameFilterView { installed: on, ..filter },
        FilterMessageView::SetNotInstalled(on) => GameFilterView { not_installed: on, ..filter },
        FilterMessageView::SetCompletionStatus(status) => GameFilterView {
            completion_status: status,
            ..filter
        },
        FilterMessageView::SetGenreLibraryId(genre) => GameFilterView {
            genre_metadata_id: match genre {
                Some(g) => Some(g.library_id),
                None => None,
            },
            ..filter
        },
    }
}

/// Applies a change to the filter.
pub fn update_filter(filter: &mut GameFilter, message: FilterMessage)
    ensures
        final(filter)@ == spec_update_filter(old(filter)@, message@),
{
    match message {
        FilterMessage::SetInstalled(on) => {
            filter.installed = on;
        },
        FilterMessage::SetNotInstalled(on) => {
            filter.not_installed = on;
        },
        FilterMessage::SetCompletionStatus(status) => {
            filter.completion_status = status;
        },
        FilterMessage::SetGenreLibraryId(genre) => {
            filter.genre_metadata_id = match genre {
                Some(g) => Some(g.library_id),
                None => None,
            };
        },
    }
}

/// The mathematical value of a message to the library page.
pub enum MessageView {
    ViewSelected(LibraryViewType),
    ShowAddDialog,
    GameAction(GameAction, GameDataView),
    RefreshGames,
    ReloadCache,
    CacheReloaded(Seq<GameDataView>),
    SelectGame(usize),
    SearchChanged(Seq<char>),
    SortFieldChanged(SortField),
    ToggleSortDirection,
    CloseEditor,
    EditorTextChanged(GameTextField, Seq<char>),
    EditorCompletionStatusChanged(CompletionStatus),
    SaveEditor,
    MoveInDir(Direction),
    UpdateLastPlayed(i32, i64),
    ToggleFilterDisplay,
    Filter(FilterMessageView),
    NoOp,
    OnGenresLoad(Seq<GenreRowView>),
}

/// What the library page takes.
#[derive(Debug)]
pub enum Message {
    ViewSelected(LibraryViewType),
    ShowAddDialog,
    GameAction(GameAction, GameData),
    RefreshGames,
    ReloadCache,
    CacheReloaded(Vec<GameData>),
    SelectGame(usize),
    SearchChanged(String),
    SortFieldChanged(SortField),
    ToggleSortDirection,
    CloseEditor,
    EditorTextChanged(GameTextField, String),
    EditorCompletionStatusChanged(CompletionStatus),
    SaveEditor,
    MoveInDir(Direction),
    /// The game with this id was played at this instant, in seconds since
    /// 1970-01-01T00:00:00Z.
    UpdateLastPlayed(i32, i64),
    ToggleFilterDisplay,
    Filter(FilterMessage),
    NoOp,
    OnGenresLoad(Vec<Genre>),
}

impl View for Message {
    type V = MessageView;

    open spec fn view(&self) -> MessageView {
        match self {
            Message::ViewSelected(layout) => MessageView::ViewSelected(*layout),
            Message::ShowAddDialog => MessageView::ShowAddDialog,
            Message::GameAction(action, game) => MessageView::GameAction(*action, game@),
            Message::RefreshGames => MessageView::RefreshGames,
            Message::ReloadCache => MessageView::ReloadCache,
            Message::CacheReloaded(games) => MessageView::CacheReloaded(games.deep_view()),
            Message::SelectGame(index) => MessageView::SelectGame(*index),
            Message::SearchChanged(text) => MessageView::SearchChanged(text@),
            Message::SortFieldChanged(field) => MessageView::SortFieldChanged(*field),
            Message::ToggleSortDirection => MessageView::ToggleSortDirection,
            Message::CloseEditor => MessageView::CloseEditor,
            Message::EditorTextChanged(field, text) => MessageView::EditorTextChanged(*field, text@),
            Message::EditorCompletionStatusChanged(status) => MessageView::EditorCompletionStatusChanged(
                *status,
            ),
            Message::SaveEditor => MessageView::SaveEditor,
            Message::MoveInDir(direction) => MessageView::MoveInDir(*direction),
            Message::UpdateLastPlayed(id, at) => MessageView::UpdateLastPlayed(*id, *at),
            Message::ToggleFilterDisplay => MessageView::ToggleFilterDisplay,
            Message::Filter(change) => MessageView::Filter(change@),
            Message::NoOp => MessageView::NoOp,
            Message::OnGenresLoad(genres) => MessageView::OnGenresLoad(genres.deep_view()),
        }
    }
}

/// The mathematical value of an effect.
pub enum EffectView {
    Nothing,
    SyncLibrary,
    ReloadCache { args: GameSyncArgsView, filter: GameFilterView },
    DeleteGame(i32),
    Launch(GameRefView, i32),
    Install(GameRefView),
    Uninstall(GameRefView),
    SaveGame(GameDataView),
    LoadGenres,
}

/// What the library page asks to be done outside of it.
#[derive(Debug)]
pub enum LibraryEffect {
    /// Nothing is to be done.
    Nothing,
    /// Run the sync pass of every addon, then send `ReloadCache`.
    SyncLibrary,
    /// List the catalog with these arguments and this filter, then send the
    /// games as `CacheReloaded`.
    ReloadCache { args: GameSyncArgs, filter: GameFilter },
    /// Delete the game with this id, then send `ReloadCache`.
    DeleteGame(i32),
    /// Launch this game through its addon, record that the game with this id
    /// was played now, and send the instant as `UpdateLastPlayed`.
    Launch(GameLibraryRefOwned, i32),
    /// Install this game through its addon.
    Install(GameLibraryRefOwned),
    /// Uninstall this game through its addon.
    Uninstall(GameLibraryRefOwned),
    /// Store this game, then send `ReloadCache`.
    SaveGame(GameData),
    /// List the genres of the catalog and send them as `OnGenresLoad`.
    LoadGenres,
}

impl View for LibraryEffect {
    type V = EffectView;

    open spec fn view(&self) -> EffectView {
        match self {
            LibraryEffect::Nothing => EffectView::Nothing,
            LibraryEffect::SyncLibrary => EffectView::SyncLibrary,
            LibraryEffect::ReloadCache { args, filter } => EffectView::ReloadCache {
                args: args@,
                filter: filter@,
            },
            LibraryEffect::DeleteGame(id) => EffectView::DeleteGame(*id),
            LibraryEffect::Launch(game, id) => EffectView::Launch(game@, *id),
            LibraryEffect::Install(game) => EffectView::Install(game@),
            LibraryEffect::Uninstall(game) => EffectView::Uninstall(game@),
            LibraryEffect::SaveGame(game) => EffectView::SaveGame(game@),
            LibraryEffect::LoadGenres => EffectView::LoadGenres,
        }
    }
}

/// The mathematical value of the library page.
pub struct LibraryPageView {
    pub edit_game: Option<GameDataView>,
    pub curr_index: usize,
    pub view_type: LibraryViewType,
    pub games: Seq<GameDataView>,
    pub args: GameSyncArgsView,
    pub filter: GameFilterView,
    pub display_filter: bool,
    pub all_genres_by_meta_id: Map<Seq<char>, GenreRowView>,
}

/// A text of the editor as an optional field holds it: an empty text means
/// that the field is unset.
pub open spec fn spec_opt_text(text: Seq<char>) -> Option<Seq<char>> {
    if text.len() == 0 {
        None
    } else {
        Some(text)
    }
}

/// The game in the editor after a text field was changed.
pub open spec fn spec_edit_text(game: GameDataView, field: GameTextField, text: Seq<char>) -> GameDataView {
    match field {
        GameTextField::Name => GameDataView { name: text, ..game },
        GameTextField::Description => GameDataView { description: text, ..game },
        GameTextField::HeaderUrl => GameDataView { header_url: spec_opt_text(text), ..game },
        GameTextField::IconUrl => GameDataView { icon_url: spec_opt_text(text), ..game },
        GameTextField::CoverUrl => GameDataView { cover_url: spec_opt_text(text), ..game },
    }
}

/// The index of the selection after a move. In the list and in the table the
/// selection moves up and down and stops at the ends; the grid does not move
/// it.
pub open spec fn spec_move(page: LibraryPageView, direction: Direction) -> usize {
    if page.view_type == LibraryViewType::Grid {
        page.curr_index
    } else if direction == Direction::Up && page.curr_index != 0 {
        (page.curr_index - 1) as usize
    } else if direction == Direction::Down && page.curr_index + 1 < page.games.len() {
        (page.curr_index + 1) as usize
    } else {
        page.curr_index
    }
}

/// The games of the page after the game with id `id` was played at `at`: the
/// selected game takes the instant if it is that game.
pub open spec fn spec_played(page: LibraryPageView, id: i32, at: i64) -> Seq<GameDataView> {
    if page.curr_index < page.games.len() && page.games[page.curr_index as int].id == id {
        page.games.update(
            page.curr_index as int,
            GameDataView { last_played: Some(at), ..page.games[page.curr_index as int] },
        )
    } else {
        page.games
    }
}

/// The genres by their metadata id; of two with the same id the later one
/// stays.
pub open spec fn spec_genres_by_id(genres: Seq<GenreRowView>) -> Map<Seq<char>, GenreRowView>
    decreases genres.len(),
{
    if genres.len() == 0 {
        Map::empty()
    } else {
        spec_genres_by_id(genres.drop_last()).insert(genres.last().metadata_id, genres.last())
    }
}

/// The effect that lists the catalog anew.
pub open spec fn spec_reload(page: LibraryPageView) -> (LibraryPageView, EffectView) {
    (page, EffectView::ReloadCache { args: page.args, filter: page.filter })
}

/// The library page after a message, and what is to be done.
pub open spec fn spec_update(page: LibraryPageView, message: MessageView) -> (LibraryPageView, EffectView) {
    match message {
        MessageView::RefreshGames => (page, EffectView::SyncLibrary),
        MessageView::SearchChanged(text) => spec_reload(
            LibraryPageView { args: GameSyncArgsView { search: text, ..page.args }, ..page },
        ),
        MessageView::ReloadCache => spec_reload(page),
        MessageView::ViewSelected(layout) => (
            LibraryPageView { view_type: layout, ..page },
            EffectView::Nothing,
        ),
        MessageView::CacheReloaded(games) => (LibraryPageView { games, ..page }, EffectView::Nothing),
        MessageView::GameAction(action, game) => match action {
            GameAction::Delete => (page, EffectView::DeleteGame(game.id)),
            GameAction::Play => (page, EffectView::Launch(spec_ref_of(game), game.id)),
            GameAction::Install => (page, EffectView::Install(spec_ref_of(game))),
            GameAction::Uninstall => (page, EffectView::Uninstall(spec_ref_of(game))),
            GameAction::Edit => (
                LibraryPageView { edit_game: Some(game), ..page },
                EffectView::Nothing,
            ),
        },
        MessageView::SaveEditor => match page.edit_game {
            Some(game) => (page, EffectView::SaveGame(game)),
            None => (page, EffectView::Nothing),
        },
        MessageView::CloseEditor => (LibraryPageView { edit_game: None, ..page }, EffectView::Nothing),
        MessageView::EditorTextChanged(field, text) => (
            LibraryPageView {
                edit_game: match page.edit_game {
                    Some(game) => Some(spec_edit_text(game, field, text)),
                    None => None,
                },
                ..page
            },
            EffectView::Nothing,
        ),
        MessageView::EditorCompletionStatusChanged(status) => (
            LibraryPageView {
                edit_game: match page.edit_game {
                    Some(game) => Some(GameDataView { completion_status: status, ..game }),
                    None => None,
                },
                ..page
            },
            EffectView::Nothing,
        ),
        MessageView::SelectGame(index) => (
            LibraryPageView { curr_index: index, ..page },
            EffectView::Nothing,
        ),
        MessageView::SortFieldChanged(field) => spec_reload(
            LibraryPageView {
                args: GameSyncArgsView { sort: Sort { field, ..page.args.sort }, ..page.args },
                ..page
            },
        ),
        MessageView::ToggleSortDirection => spec_reload(
            LibraryPageView {
                args: GameSyncArgsView {
                    sort: Sort {
                        order: match page.args.sort.order {
                            SortOrder::Ascending => SortOrder::Descending,
                            SortOrder::Descending => SortOrder::Ascending,
                        },
                        ..page.args.sort
                    },
                    ..page.args
                },
                ..page
            },
        ),
        MessageView::MoveInDir(direction) => (
            LibraryPageView { curr_index: spec_move(page, direction), ..page },
            EffectView::Nothing,
        ),
        MessageView::UpdateLastPlayed(id, at) => (
            LibraryPageView { games: spec_played(page, id, at), ..page },
            EffectView::Nothing,
        ),
        MessageView::ToggleFilterDisplay => (
            LibraryPageView { display_filter: !page.display_filter, ..page },
            if page.display_filter {
                EffectView::Nothing
            } else {
                EffectView::LoadGenres
            },
        ),
        MessageView::OnGenresLoad(genres) => (
            LibraryPageView { all_genres_by_meta_id: spec_genres_by_id(genres), ..page },
            EffectView::Nothing,
        ),
        MessageView::Filter(change) => spec_reload(
            LibraryPageView { filter: spec_update_filter(page.filter, change), ..page },
        ),
        MessageView::ShowAddDialog => (page, EffectView::Nothing),
        MessageView::NoOp => (page, EffectView::Nothing),
    }
}

/// The library page at its start: the list layout, no game, no search, no
/// filter.
pub open spec fn spec_new_page() -> LibraryPageView {
    LibraryPageView {
        edit_game: None,
        curr_index: 0,
        view_type: LibraryViewType::List,
        games: Seq::empty(),
        args: GameSyncArgsView {
            search: Seq::empty(),
            sort: Sort { field: SortField::Name, order: SortOrder::Ascending },
        },
        filter: crate::catalog::spec_no_filter(),
        display_filter: false,
        all_genres_by_meta_id: Map::empty(),
    }
}

/// A copy of a list of games.
pub fn clone_games(games: &Vec<GameData>) -> (copy: Vec<GameData>)
    ensures
        copy.deep_view() == games.deep_view(),
{
    let mut copy: Vec<GameData> = Vec::new();
    let mut i: usize = 0;
    while i < games.len()
        invariant
            i <= games.len(),
            copy.len() == i,
            forall|j: int| 0 <= j < i ==> copy[j]@ == games[j]@,
        decreases games.len() - i,
    {
        copy.push(games[i].clone());
        i += 1;
    }
    assert(copy.deep_view() =~= games.deep_view());
    copy
}

/// A text of the editor as an optional field holds it.
pub fn opt_text(text: String) -> (field: Option<String>)
    ensures
        field.deep_view() == spec_opt_text(text@),
{
    if text.as_str().unicode_len() == 0 {
        None
    } else {
        Some(text)
    }
}

/// The library page.
#[derive(Debug)]
pub struct LibraryPage {
    edit_game: Option<GameData>,
    curr_index: usize,
    view_type: LibraryViewType,
    games: Vec<GameData>,
    table: LibraryTable,
    args: GameSyncArgs,
    filter: GameFilter,
    display_filter: bool,
    all_genres_by_meta_id: StringTable<Genre>,
}

impl View for LibraryPage {
    type V = LibraryPageView;

    closed spec fn view(&self) -> LibraryPageView {
        LibraryPageView {
            edit_game: self.edit_game.deep_view(),
            curr_index: self.curr_index,
            view_type: self.view_type,
            games: self.games.deep_view(),
            args: self.args@,
            filter: self.filter@,
            display_filter: self.display_filter,
            all_genres_by_meta_id: self.all_genres_by_meta_id@.map_values(|genre: Genre| genre@),
        }
    }
}

fn genres_by_id(genres: &Vec<Genre>) -> (table: StringTable<Genre>)
    ensures
        table.well_formed(),
        table@.map_values(|genre: Genre| genre@) == spec_genres_by_id(genres.deep_view()),
{
    let ghost all = genres.deep_view();
    let mut table: StringTable<Genre> = StringTable::new();
    let mut i: usize = 0;
    proof {
        assert(all.take(0) =~= Seq::empty());
        assert(table@.map_values(|genre: Genre| genre@) =~= spec_genres_by_id(all.take(0)));
    }
    while i < genres.len()
        invariant
            i <= genres.len(),
            all == genres.deep_view(),
            table.well_formed(),
            table@.map_values(|genre: Genre| genre@) == spec_genres_by_id(all.take(i as int)),
        decreases genres.len() - i,
    {
        let ghost before = table@;
        let genre = genres[i].clone();
        proof {
            assert(all.take(i + 1).drop_last() =~= all.take(i as int));
            assert(all.take(i + 1).last() == genres[i as int]@);
        }
        table.insert(genres[i].metadata_id.clone(), genre);
        proof {
            assert(table@.map_values(|genre: Genre| genre@) =~= before.map_values(
                |genre: Genre| genre@,
            ).insert(genres[i as int]@.metadata_id, genres[i as int]@));
        }
        i += 1;
    }
    assert(all.take(i as int) =~= all);
    table
}

impl LibraryPage {
    /// The rows of the table mirror the games, and the genres stand each
    /// under its own id.
    pub closed spec fn well_formed(&self) -> bool {
        &&& self.table.rows.deep_view() == self.games.deep_view()
        &&& self.all_genres_by_meta_id.well_formed()
    }

    /// The library page at its start.
    pub fn new() -> (page: Self)
        ensures
            page.well_formed(),
            page@ == spec_new_page(),
    {
        let page = LibraryPage {
            edit_game: None,
            view_type: LibraryViewType::List,
            games: Vec::new(),
            curr_index: 0,
            table: LibraryTable::new(),
            args: GameSyncArgs::default(),
            filter: GameFilter::default(),
            display_filter: false,
            all_genres_by_meta_id: StringTable::new(),
        };
        proof {
            assert(page@.games =~= Seq::empty());
            assert(page@.all_genres_by_meta_id =~= Map::empty());
        }
        page
    }

    /// The games that the page shows.
    pub fn games(&self) -> (games: &Vec<GameData>)
        ensures
            games.deep_view() == self@.games,
    {
        &self.games
    }

    /// The game that is selected, if the selection names one.
    pub fn current(&self) -> (game: Option<&GameData>)
        ensures
            game.deep_view() == (if self@.curr_index < self@.games.len() {
                Some(self@.games[self@.curr_index as int])
            } else {
                None
            }),
    {
        if self.curr_index < self.games.len() {
            assert(self@.games[self.curr_index as int] == self.games[self.curr_index as int]@);
            Some(&self.games[self.curr_index])
        } else {
            None
        }
    }

    /// The game in the editor, if the editor is open.
    pub fn edit_game(&self) -> (game: Option<&GameData>)
        ensures
            game.deep_view() == self@.edit_game,
    {
        self.edit_game.as_ref()
    }

    /// The index of the selection.
    pub fn curr_index(&self) -> (index: usize)
        ensures
            index == self@.curr_index,
    {
        self.curr_index
    }

    /// The layout.
    pub fn view_type(&self) -> (layout: LibraryViewType)
        ensures
            layout == self@.view_type,
    {
        self.view_type
    }

    /// Whether the filter is on display.
    pub fn display_filter(&self) -> (shown: bool)
        ensures
            shown == self@.display_filter,
    {
        self.display_filter
    }

    /// The table of the table layout.
    pub fn table(&self) -> (table: &LibraryTable)
        requires
            self.well_formed(),
        ensures
            table.rows.deep_view() == self@.games,
    {
        &self.table
    }

    fn reload(&self) -> (effect: LibraryEffect)
        ensures
            (self@, effect@) == spec_reload(self@),
    {
        LibraryEffect::ReloadCache { args: self.args.clone(), filter: self.filter.clone() }
    }

    fn game_action(&mut self, action: GameAction, game: GameData) -> (effect: LibraryEffect)
        requires
            old(self).well_formed(),
        ensures
            final(self).well_formed(),
            (final(self)@, effect@) == spec_update(
                old(self)@,
                MessageView::GameAction(action, game@),
            ),
    {
        match action {
            GameAction::Delete => LibraryEffect::DeleteGame(game.id),
            GameAction::Play => LibraryEffect::Launch(game.get_owned_ref(), game.id),
            GameAction::Install => LibraryEffect::Install(game.get_owned_ref()),
            GameAction::Uninstall => LibraryEffect::Uninstall(game.get_owned_ref()),
            GameAction::Edit => {
                self.edit_game = Some(game);
                LibraryEffect::Nothing
            },
        }
    }

    fn edit_text(&mut self, field: GameTextField, text: String)
        requires
            old(self).well_formed(),
        ensures
            final(self).well_formed(),
            final(self)@ == spec_update(old(self)@, MessageView::EditorTextChanged(field, text@)).0,
    {
        match self.edit_game.take() {
            Some(mut game) => {
                match field {
                    GameTextField::Name => {
                        game.name = text;
                    },
                    GameTextField::Description => {
                        game.description = text;
                    },
                    GameTextField::HeaderUrl => {
                        game.header_url = opt_text(text);
                    },
                    GameTextField::IconUrl => {
                        game.icon_url = opt_text(text);
                    },
                    GameTextField::CoverUrl => {
                        game.cover_url = opt_text(text);
                    },
                }
                self.edit_game = Some(game);
            },
            None => {},
        }
    }

    fn edit_status(&mut self, status: CompletionStatus)
        requires
            old(self).well_formed(),
        ensures
            final(self).well_formed(),
            final(self)@ == spec_update(
                old(self)@,
                MessageView::EditorCompletionStatusChanged(status),
            ).0,
    {
        match self.edit_game.take() {
            Some(mut game) => {
                game.completion_status = status;
                self.edit_game = Some(game);
            },
            None => {},
        }
    }

    fn move_in_dir(&mut self, direction: Direction)
        requires
            old(self).well_formed(),
        ensures
            final(self).well_formed(),
            final(self)@ == spec_update(old(self)@, MessageView::MoveInDir(direction)).0,
    {
        match self.view_type {
            LibraryViewType::Grid => {},
            _ => {
                match direction {
                    Direction::Up => {
                        if self.curr_index != 0 {
                            self.curr_index = self.curr_index - 1;
                        }
                    },
                    Direction::Down => {
                        if self.games.len() > 0 && self.curr_index < self.games.len() - 1 {
                            self.curr_index = self.curr_index + 1;
                        }
                    },
                    _ => {},
                }
            },
        }
    }

    fn mark_played(&mut self, id: i32, at: i64)
        requires
            old(self).well_formed(),
        ensures
            final(self).well_formed(),
            final(self)@ == spec_update(old(self)@, MessageView::UpdateLastPlayed(id, at)).0,
    {
        let ghost before = self@;
        assert(self.table.rows.len() == self.games.len()) by {
            assert(self.table.rows.deep_view().len() == self.games.deep_view().len());
        }
        if self.curr_index < self.games.len() {
            assert(before.games[self.curr_index as int] == self.games[self.curr_index as int]@);
            if self.games[self.curr_index].id == id {
                let mut game = self.games[self.curr_index].clone();
                game.last_played = Some(at);
                let row = game.clone();
                self.games.set(self.curr_index, game);
                self.table.rows.set(self.curr_index, row);
                proof {
                    assert(self.games.deep_view() =~= spec_played(before, id, at));
                    assert(self.table.rows.deep_view() =~= self.games.deep_view());
                }
            }
        }
    }

    /// Takes a message and says what is to be done.
    pub fn update(&mut self, message: Message) -> (effect: LibraryEffect)
        requires
            old(self).well_formed(),
        ensures
            final(self).well_formed(),
            (final(self)@, effect@) == spec_update(old(self)@, message@),
    {
        match message {
            Message::RefreshGames => LibraryEffect::SyncLibrary,
            Message::SearchChanged(text) => {
                self.args.search = text;
                self.reload()
            },
            Message::ReloadCache => self.reload(),
            Message::ViewSelected(layout) => {
                self.view_type = layout;
                LibraryEffect::Nothing
            },
            Message::CacheReloaded(games) => {
                self.table.rows = clone_games(&games);
                self.games = games;
                LibraryEffect::Nothing
            },
            Message::GameAction(action, game) => self.game_action(action, game),
            Message::SaveEditor => match &self.edit_game {
                Some(game) => LibraryEffect::SaveGame(game.clone()),
                None => LibraryEffect::Nothing,
            },
            Message::CloseEditor => {
                self.edit_game = None;
                LibraryEffect::Nothing
            },
            Message::EditorTextChanged(field, text) => {
                self.edit_text(field, text);
                LibraryEffect::Nothing
            },
            Message::EditorCompletionStatusChanged(status) => {
                self.edit_status(status);
                LibraryEffect::Nothing
            },
            Message::SelectGame(index) => {
                self.curr_index = index;
                LibraryEffect::Nothing
            },
            Message::SortFieldChanged(field) => {
                self.args.sort.field = field;
                self.reload()
            },
            Message::ToggleSortDirection => {
                self.args.sort.order = self.args.sort.order.toggled();
                self.reload()
            },
            Message::MoveInDir(direction) => {
                self.move_in_dir(direction);
                LibraryEffect::Nothing
            },
            Message::UpdateLastPlayed(id, at) => {
                self.mark_played(id, at);
                LibraryEffect::Nothing
            },
            Message::ToggleFilterDisplay => {
                self.display_filter = !self.display_filter;
                if self.display_filter {
                    LibraryEffect::LoadGenres
                } else {
                    LibraryEffect::Nothing
                }
            },
            Message::OnGenresLoad(genres) => {
                self.all_genres_by_meta_id = genres_by_id(&genres);
                LibraryEffect::Nothing
            },
            Message::Filter(change) => {
                update_filter(&mut self.filter, change);
                self.reload()
            },
            Message::ShowAddDialog => LibraryEffect::Nothing,
            Message::NoOp => LibraryEffect::Nothing,
        }
    }
}

/// The selection never leaves the list by moving: after a move in the list
/// or the table it names a game whenever it named one before.
pub proof fn lemma_move_stays_in_list(page: LibraryPageView, direction: Direction)
    requires
        page.curr_index < page.games.len(),
    ensures
        spec_move(page, direction) < page.games.len(),
{
}

} // verus!
