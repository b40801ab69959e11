//! The rows of the catalog and the codes under which it stores the two
//! status enums.
use crate::models::{
    clone_text, spec_empty_game, CompletionStatus, GameData, GameDataView, GameInstallStatus,
    GameRefView, GenreData, GenreView, IsGameLibraryRef,
};
use crate::time::CalendarDate;
use vstd::prelude::*;

verus! {

/// An install status as the catalog stores it.
#[derive(Debug, Clone, Copy, PartialEq, Eq, Structural)]
pub enum DbGameInstallStatus {
    Installed,
    Installing,
    InLibrary,
    Queued,
    Uninstalling,
}

/// The status that a stored status stands for.
pub open spec fn spec_install_status(stored: DbGameInstallStatus) -> GameInstallStatus {
    match stored {
        DbGameInstallStatus::Installed => GameInstallStatus::Installed,
        DbGameInstallStatus::Installing => GameInstallStatus::Installing,
        DbGameInstallStatus::InLibrary => GameInstallStatus::InLibrary,
        DbGameInstallStatus::Queued => GameInstallStatus::Queued,
        DbGameInstallStatus::Uninstalling => GameInstallStatus::Uninstalling,
    }
}

/// The stored form of a status.
pub open spec fn spec_db_install_status(status: GameInstallStatus) -> DbGameInstallStatus {
    match status {
        GameInstallStatus::Installed => DbGameInstallStatus::Installed,
        GameInstallStatus::Installing => DbGameInstallStatus::Installing,
        GameInstallStatus::InLibrary => DbGameInstallStatus::InLibrary,
        GameInstallStatus::Queued => DbGameInstallStatus::Queued,
        GameInstallStatus::Uninstalling => DbGameInstallStatus::Uninstalling,
    }
}

impl DbGameInstallStatus {
    /// The number in the status column.
    pub open spec fn spec_code(self) -> u8 {
        match self {
            DbGameInstallStatus::Installed => 0,
            DbGameInstallStatus::Installing => 1,
            DbGameInstallStatus::InLibrary => 2,
            DbGameInstallStatus::Queued => 3,
            DbGameInstallStatus::Uninstalling => 4,
        }
    }

    /// The number in the status column.
    pub fn code(self) -> (code: u8)
        ensures
            code == self.spec_code(),
    {
        match self {
            DbGameInstallStatus::Installed => 0,
            DbGameInstallStatus::Installing => 1,
            DbGameInstallStatus::InLibrary => 2,
            DbGameInstallStatus::Queued => 3,
            DbGameInstallStatus::Uninstalling => 4,
        }
    }

    /// The status that a number in the status column stands for.
    pub fn from_code(code: u8) -> (stored: Option<Self>)
        ensures
            match stored {
                Some(status) => status.spec_code() == code,
                None => code > 4,
            },
    {
        match code {
            0 => Some(DbGameInstallStatus::Installed),
            1 => Some(DbGameInstallStatus::Installing),
            2 => Some(DbGameInstallStatus::InLibrary),
            3 => Some(DbGameInstallStatus::Queued),
            4 => Some(DbGameInstallStatus::Uninstalling),
            _ => None,
        }
    }

    /// The stored form of a status.
    pub fn from_status(status: GameInstallStatus) -> (stored: Self)
        ensures
            stored == spec_db_install_status(status),
            spec_install_status(stored) == status,
    {
        match status {
            GameInstallStatus::Installed => DbGameInstallStatus::Installed,
            GameInstallStatus::Installing => DbGameInstallStatus::Installing,
            GameInstallStatus::InLibrary => DbGameInstallStatus::InLibrary,
            GameInstallStatus::Queued => DbGameInstallStatus::Queued,
            GameInstallStatus::Uninstalling => DbGameInstallStatus::Uninstalling,
        }
    }

    /// The status that the stored form stands for.
    pub fn into_status(self) -> (status: GameInstallStatus)
        ensures
            status == spec_install_status(self),
            spec_db_install_status(status) == self,
    {
        match self {
            DbGameInstallStatus::Installed => GameInstallStatus::Installed,
            DbGameInstallStatus::Installing => GameInstallStatus::Installing,
            DbGameInstallStatus::InLibrary => GameInstallStatus::InLibrary,
            DbGameInstallStatus::Queued => GameInstallStatus::Queued,
            DbGameInstallStatus::Uninstalling => GameInstallStatus::Uninstalling,
        }
    }
}

/// A completion status as the catalog stores it.
#[derive(Debug, Clone, Copy, PartialEq, Eq, Structural)]
pub enum DbGameCompletionStatus {
    Backlog,
    Playing,
    Played,
    OnHold,
}

/// The status that a stored completion status stands for.
pub open spec fn spec_completion_status(stored: DbGameCompletionStatus) -> CompletionStatus {
    match stored {
        DbGameCompletionStatus::Backlog => CompletionStatus::Backlog,
        DbGameCompletionStatus::Playing => CompletionStatus::Playing,
        DbGameCompletionStatus::Played => CompletionStatus::Played,
        DbGameCompletionStatus::OnHold => CompletionStatus::OnHold,
    }
}

/// The stored form of a completion status.
pub open spec fn spec_db_completion_status(status: CompletionStatus) -> DbGameCompletionStatus {
    match status {
        CompletionStatus::Backlog => DbGameCompletionStatus::Backlog,
        CompletionStatus::Playing => DbGameCompletionStatus::Playing,
        CompletionStatus::Played => DbGameCompletionStatus::Played,
        CompletionStatus::OnHold => DbGameCompletionStatus::OnHold,
    }
}

impl DbGameCompletionStatus {
    /// The number in the status column.
    pub open spec fn spec_code(self) -> u8 {
        match self {
            DbGameCompletionStatus::Backlog => 0,
            DbGameCompletionStatus::Playing => 1,
            DbGameCompletionStatus::Played => 2,
            DbGameCompletionStatus::OnHold => 3,
        }
    }

    /// The number in the status column.
    pub fn code(self) -> (code: u8)
        ensures
            code == self.spec_code(),
    {
        match self {
            DbGameCompletionStatus::Backlog => 0,
            DbGameCompletionStatus::Playing => 1,
            DbGameCompletionStatus::Played => 2,
            DbGameCompletionStatus::OnHold => 3,
        }
    }

    /// The status that a number in the status column stands for.
    pub fn from_code(code: u8) -> (stored: Option<Self>)
        ensures
            match stored {
                Some(status) => status.spec_code() == code,
                None => code > 3,
            },
    {
        match code {
            0 => Some(DbGameCompletionStatus::Backlog),
            1 => Some(DbGameCompletionStatus::Playing),
            2 => Some(DbGameCompletionStatus::Played),
            3 => Some(DbGameCompletionStatus::OnHold),
            _ => None,
        }
    }

    /// The stored form of a status.
    pub fn from_status(status: CompletionStatus) -> (stored: Self)
        ensures
            stored == spec_db_completion_status(status),
            spec_completion_status(stored) == status,
    {
        match status {
            CompletionStatus::Backlog => DbGameCompletionStatus::Backlog,
            CompletionStatus::Playing => DbGameCompletionStatus::Playing,
            CompletionStatus::Played => DbGameCompletionStatus::Played,
            CompletionStatus::OnHold => DbGameCompletionStatus::OnHold,
        }
    }

    /// The status that the stored form stands for.
    pub fn into_status(self) -> (status: CompletionStatus)
        ensures
            status == spec_completion_status(self),
            spec_db_completion_status(status) == self,
    {
        match self {
            DbGameCompletionStatus::Backlog => CompletionStatus::Backlog,
            DbGameCompletionStatus::Playing => CompletionStatus::Playing,
            DbGameCompletionStatus::Played => CompletionStatus::Played,
            DbGameCompletionStatus::OnHold => CompletionStatus::OnHold,
        }
    }
}

/// The mathematical value of a game row.
pub struct GameRowView {
    pub id: i32,
    pub name: Seq<char>,
    pub description: Seq<char>,
    pub play_time_secs: i64,
    pub install_status: DbGameInstallStatus,
    pub release_date: Option<CalendarDate>,
    pub last_played: Option<i64>,
    pub icon_url: Option<Seq<char>>,
    pub header_url: Option<Seq<char>>,
    pub cover_url: Option<Seq<char>>,
    pub library_type: Seq<char>,
    pub library_id: Seq<char>,
    pub completion_status: DbGameCompletionStatus,
}

/// A row of the games table. The pair (`library_type`, `library_id`) stands
/// in the table at most once.
#[derive(Debug)]
pub struct Game {
    pub id: i32,
    pub name: String,
    pub description: String,
    pub play_time_secs: i64,
    pub install_status: DbGameInstallStatus,
    pub release_date: Option<CalendarDate>,
    pub last_played: Option<i64>,
    pub icon_url: Option<String>,
    pub header_url: Option<String>,
    pub cover_url: Option<String>,
    pub library_type: String,
    pub library_id: String,
    pub completion_status: DbGameCompletionStatus,
}

impl View for Game {
    type V = GameRowView;

    open spec fn view(&self) -> GameRowView {
        GameRowView {
            id: self.id,
            name: self.name@,
            description: self.description@,
            play_time_secs: self.play_time_secs,
            install_status: self.install_status,
            release_date: self.release_date,
            last_played: self.last_played,
            icon_url: self.icon_url.deep_view(),
            header_url: self.header_url.deep_view(),
            cover_url: self.cover_url.deep_view(),
            library_type: self.library_type@,
            library_id: self.library_id@,
            completion_status: self.completion_status,
        }
    }
}

impl DeepView for Game {
    type V = GameRowView;

    open spec fn deep_view(&self) -> GameRowView {
        self@
    }
}

/// The catalog game that a row holds, without its genres: those stand in
/// rows of their own.
pub open spec fn spec_game_of_row(row: GameRowView) -> GameDataView {
    GameDataView {
        id: row.id,
        name: row.name,
        description: row.description,
        genres: Seq::empty(),
        play_time_secs: row.play_time_secs,
        install_status: spec_install_status(row.install_status),
        release_date: row.release_date,
        last_played: row.last_played,
        icon_url: row.icon_url,
        header_url: row.header_url,
        cover_url: row.cover_url,
        library_type: row.library_type,
        library_id: row.library_id,
        completion_status: spec_completion_status(row.completion_status),
    }
}

/// The row that holds a catalog game.
pub open spec fn spec_row_of_game(game: GameDataView) -> GameRowView {
    GameRowView {
        id: game.id,
        name: game.name,
        description: game.description,
        play_time_secs: game.play_time_secs,
        install_status: spec_db_install_status(game.install_status),
        release_date: game.release_date,
        last_played: game.last_played,
        icon_url: game.icon_url,
        header_url: game.header_url,
        cover_url: game.cover_url,
        library_type: game.library_type,
        library_id: game.library_id,
        completion_status: spec_db_completion_status(game.completion_status),
    }
}

impl Game {
    /// The row that holds `game`.
    pub fn from_game(game: &GameData) -> (row: Game)
        ensures
            row@ == spec_row_of_game(game@),
    {
        Game {
            id: game.id,
            name: game.name.clone(),
            description: game.description.clone(),
            play_time_secs: game.play_time_secs,
            install_status: DbGameInstallStatus::from_status(game.install_status),
            release_date: game.release_date,
            last_played: game.last_played,
            icon_url: clone_text(&game.icon_url),
            header_url: clone_text(&game.header_url),
            cover_url: clone_text(&game.cover_url),
            library_type: game.library_type.clone(),
            library_id: game.library_id.clone(),
            completion_status: DbGameCompletionStatus::from_status(game.completion_status),
        }
    }

    /// The catalog game that the row holds, without genres.
    pub fn into_game(self) -> (game: GameData)
        ensures
            game@ == spec_game_of_row(self@),
    {
        let game = GameData {
            id: self.id,
            name: self.name,
            description: self.description,
            genres: Vec::new(),
            play_time_secs: self.play_time_secs,
            install_status: self.install_status.into_status(),
            release_date: self.release_date,
            last_played: self.last_played,
            icon_url: self.icon_url,
            header_url: self.header_url,
            cover_url: self.cover_url,
            library_type: self.library_type,
            library_id: self.library_id,
            completion_status: self.completion_status.into_status(),
        };
        assert(game@.genres =~= Seq::empty());
        game
    }
}

impl IsGameLibraryRef for Game {
    open spec fn spec_game_ref(&self) -> GameRefView {
        GameRefView {
            name: self@.name,
            library_type: self@.library_type,
            library_id: self@.library_id,
        }
    }

    /// The name of the game.
    fn get_name(&self) -> (name: &str) {
        self.name.as_str()
    }

    /// The addon that the game belongs to.
    fn get_library_type(&self) -> (library_type: &str) {
        self.library_type.as_str()
    }

    /// The addon's id for the game.
    fn get_library_id(&self) -> (library_id: &str) {
        self.library_id.as_str()
    }
}

impl Default for Game {
    fn default() -> (row: Self)
        ensures
            row@ == spec_row_of_game(spec_empty_game()),
    {
        Game::from_game(&GameData::default())
    }
}

/// Storing a game and reading it back gives the game, but for its genres.
pub proof fn lemma_row_round_trip(game: GameDataView)
    ensures
        spec_game_of_row(spec_row_of_game(game)) == (GameDataView { genres: Seq::empty(), ..game }),
{
}

/// The mathematical value of a genre row.
pub struct GenreRowView {
    pub id: i32,
    pub name: Seq<char>,
    pub metadata_source: Seq<char>,
    pub metadata_id: Seq<char>,
}

/// A row of the genres table. The pair (`metadata_source`, `metadata_id`)
/// stands in the table at most once.
#[derive(Debug)]
pub struct Genre {
    pub id: i32,
    pub name: String,
    pub metadata_source: String,
    pub metadata_id: String,
}

impl View for Genre {
    type V = GenreRowView;

    open spec fn view(&self) -> GenreRowView {
        GenreRowView {
            id: self.id,
            name: self.name@,
            metadata_source: self.metadata_source@,
            metadata_id: self.metadata_id@,
        }
    }
}

impl DeepView for Genre {
    type V = GenreRowView;

    open spec fn deep_view(&self) -> GenreRowView {
        self@
    }
}

impl Clone for Genre {
    fn clone(&self) -> (copy: Self)
        ensures
            copy@ == self@,
    {
        Genre {
            id: self.id,
            name: self.name.clone(),
            metadata_source: self.metadata_source.clone(),
            metadata_id: self.metadata_id.clone(),
        }
    }
}

/// The row to insert for a genre that the source `source` names; the catalog
/// gives the row its id.
pub open spec fn spec_genre_row(source: Seq<char>, genre: GenreView) -> GenreRowView {
    GenreRowView { id: 0, name: genre.name, metadata_source: source, metadata_id: genre.library_id }
}

impl Genre {
    /// The row to insert for a genre that the source `source` names.
    pub fn new_row(source: &str, genre: &GenreData) -> (row: Genre)
        ensures
            row@ == spec_genre_row(source@, genre@),
    {
        Genre {
            id: 0,
            name: genre.name.clone(),
            metadata_source: source.to_owned(),
            metadata_id: genre.library_id.clone(),
        }
    }

    /// The genre that the row holds, as its source names it.
    pub fn into_genre(self) -> (genre: GenreData)
        ensures
            genre@ == (GenreView { name: self@.name, library_id: self@.metadata_id }),
    {
        GenreData { name: self.name, library_id: self.metadata_id }
    }
}

/// A row of the table that links games and genres. Both ids are ids of
/// existing rows.
#[derive(Debug, Clone, Copy, PartialEq, Eq, Structural)]
pub struct GameGenre {
    pub game_id: i32,
    pub genre_id: i32,
}

/// The direction of a sort.
#[derive(Debug, Clone, Copy, PartialEq, Eq, Structural)]
pub enum SortOrder {
    Ascending,
    Descending,
}

impl Default for SortOrder {
    fn default() -> (order: Self)
        ensures
            order == SortOrder::Ascending,
    {
        SortOrder::Ascending
    }
}

impl SortOrder {
    /// The other direction.
    pub fn toggled(self) -> (other: Self)
        ensures
            other != self,
            other == (match self {
                SortOrder::Ascending => SortOrder::Descending,
                SortOrder::Descending => SortOrder::Ascending,
            }),
    {
        match self {
            SortOrder::Ascending => SortOrder::Descending,
            SortOrder::Descending => SortOrder::Ascending,
        }
    }
}

/// The column of a sort.
#[derive(Debug, Clone, Copy, PartialEq, Eq, Structural)]
pub enum SortField {
    Name,
    LastPlayed,
    Playtime,
    ReleaseDate,
    CompletionStatus,
}

impl Default for SortField {
    fn default() -> (field: Self)
        ensures
            field == SortField::Name,
    {
        SortField::Name
    }
}

impl SortField {
    /// The words shown for the column.
    pub open spec fn spec_label(self) -> Seq<char> {
        match self {
            SortField::Name => "Name"@,
            SortField::LastPlayed => "Last played"@,
            SortField::Playtime => "Playtime"@,
            SortField::ReleaseDate => "Release date"@,
            SortField::CompletionStatus => "Completion status"@,
        }
    }

    /// The words shown for the column.
    pub fn label(&self) -> (words: &'static str)
        ensures
            words@ == self.spec_label(),
    {
        match self {
            SortField::Name => "Name",
            SortField::LastPlayed => "Last played",
            SortField::Playtime => "Playtime",
            SortField::ReleaseDate => "Release date",
            SortField::CompletionStatus => "Completion status",
        }
    }

    /// The name of the column of the games table that the field sorts by.
    pub open spec fn spec_column(self) -> Seq<char> {
        match self {
            SortField::Name => "name"@,
            SortField::LastPlayed => "last_played"@,
            SortField::Playtime => "play_time_secs"@,
            SortField::ReleaseDate => "release_date"@,
            SortField::CompletionStatus => "completion_status"@,
        }
    }

    /// The name of the column of the games table that the field sorts by.
    pub fn column(&self) -> (name: &'static str)
        ensures
            name@ == self.spec_column(),
    {
        match self {
            SortField::Name => "name",
            SortField::LastPlayed => "last_played",
            SortField::Playtime => "play_time_secs",
            SortField::ReleaseDate => "release_date",
            SortField::CompletionStatus => "completion_status",
        }
    }

    /// Every field, in the order in which a list shows them.
    pub fn all() -> (fields: Vec<SortField>)
        ensures
            fields@ == seq![
                SortField::Name,
                SortField::LastPlayed,
                SortField::Playtime,
                SortField::ReleaseDate,
                SortField::CompletionStatus,
            ],
    {
        let fields = vec![
            SortField::Name,
            SortField::LastPlayed,
            SortField::Playtime,
            SortField::ReleaseDate,
            SortField::CompletionStatus,
        ];
        assert(fields@ =~= seq![
            SortField::Name,
            SortField::LastPlayed,
            SortField::Playtime,
            SortField::ReleaseDate,
            SortField::CompletionStatus,
        ]);
        fields
    }
}

/// By which column to sort, and in which direction.
#[derive(Debug, Clone, Copy, PartialEq, Eq, Structural)]
pub struct Sort {
    pub field: SortField,
    pub order: SortOrder,
}

impl Default for Sort {
    fn default() -> (sort: Self)
        ensures
            sort == (Sort { field: SortField::Name, order: SortOrder::Ascending }),
    {
        Sort { field: SortField::Name, order: SortOrder::Ascending }
    }
}

/// The mathematical value of the arguments of a listing.
pub struct GameSyncArgsView {
    pub search: Seq<char>,
    pub sort: Sort,
}

/// What a listing of the catalog is asked for: the text to search the names
/// for, and the sort.
#[derive(Debug)]
pub struct GameSyncArgs {
    pub search: String,
    pub sort: Sort,
}

impl View for GameSyncArgs {
    type V = GameSyncArgsView;

    open spec fn view(&self) -> GameSyncArgsView {
        GameSyncArgsView { search: self.search@, sort: self.sort }
    }
}

impl Clone for GameSyncArgs {
    fn clone(&self) -> (copy: Self)
        ensures
            copy@ == self@,
    {
        GameSyncArgs { search: self.search.clone(), sort: self.sort }
    }
}

impl Default for GameSyncArgs {
    fn default() -> (args: Self)
        ensures
            args@ == (GameSyncArgsView {
                search: Seq::empty(),
                sort: Sort { field: SortField::Name, order: SortOrder::Ascending },
            }),
    {
        GameSyncArgs { search: String::new(), sort: Sort::default() }
    }
}

/// A text field of a game that the editor changes.
#[derive(Debug, Clone, Copy, PartialEq, Eq, Structural)]
pub enum GameTextField {
    Name,
    Description,
    IconUrl,
    HeaderUrl,
    CoverUrl,
}

/// A date field of a game.
#[derive(Debug, Clone, Copy, PartialEq, Eq, Structural)]
pub enum GameDateField {
    LastPlayed,
    ReleaseDate,
}

/// A duration field of a game.
#[derive(Debug, Clone, Copy, PartialEq, Eq, Structural)]
pub enum GameDurationField {
    TimePlayed,
}

/// A direction in which the selection moves.
#[derive(Debug, Clone, Copy, PartialEq, Eq, Structural)]
pub enum Direction {
    Left,
    Right,
    Up,
    Down,
}

/// The mathematical value of a filter.
pub struct GameFilterView {
    pub completion_status: Option<CompletionStatus>,
    pub installed: bool,
    pub not_installed: bool,
    pub genres: Seq<GenreRowView>,
    pub genre_metadata_id: Option<Seq<char>>,
}

/// Which games a listing of the catalog shows.
#[derive(Debug)]
pub struct GameFilter {
    pub completion_status: Option<CompletionStatus>,
    pub installed: bool,
    pub not_installed: bool,
    pub genres: Vec<Genre>,
    pub genre_metadata_id: Option<String>,
}

impl View for GameFilter {
    type V = GameFilterView;

    open spec fn view(&self) -> GameFilterView {
        GameFilterView {
            completion_status: self.completion_status,
            installed: self.installed,
            not_installed: self.not_installed,
            genres: self.genres.deep_view(),
            genre_metadata_id: self.genre_metadata_id.deep_view(),
        }
    }
}

/// A filter that shows every game.
pub open spec fn spec_no_filter() -> GameFilterView {
    GameFilterView {
        completion_status: None,
        installed: false,
        not_installed: false,
        genres: Seq::empty(),
        genre_metadata_id: None,
    }
}

/// The install status that a filter asks for, if it asks for one: installed
/// games where `installed` is set, else games in the library where
/// `not_installed` is set.
pub open spec fn spec_status_filter(filter: GameFilterView) -> Option<DbGameInstallStatus> {
    if filter.installed {
        Some(DbGameInstallStatus::Installed)
    } else if filter.not_installed {
        Some(DbGameInstallStatus::InLibrary)
    } else {
        None
    }
}

impl Default for GameFilter {
    fn default() -> (filter: Self)
        ensures
            filter@ == spec_no_filter(),
    {
        let filter = GameFilter {
            completion_status: None,
            installed: false,
            not_installed: false,
            genres: Vec::new(),
            genre_metadata_id: None,
        };
        assert(filter@.genres =~= Seq::empty());
        filter
    }
}

impl Clone for GameFilter {
    fn clone(&self) -> (copy: Self)
        ensures
            copy@ == self@,
    {
        let mut genres: Vec<Genre> = Vec::new();
        let mut i: usize = 0;
        while i < self.genres.len()
            invariant
                i <= self.genres.len(),
                genres.len() == i,
                forall|j: int| 0 <= j < i ==> genres[j]@ == self.genres[j]@,
            decreases self.genres.len() - i,
        {
            genres.push(self.genres[i].clone());
            i += 1;
        }
        assert(genres.deep_view() =~= self.genres.deep_view());
        GameFilter {
            completion_status: self.completion_status,
            installed: self.installed,
            not_installed: self.not_installed,
            genres,
            genre_metadata_id: clone_text(&self.genre_metadata_id),
        }
    }
}

/// Whether a game with these genres passes the genre part of a filter: it
/// does where the filter names no genre, and where one of the genres
/// carries the id that the filter names.
pub open spec fn spec_shows_genres(filter: GameFilterView, genres: Seq<GenreRowView>) -> bool {
    match filter.genre_metadata_id {
        Some(wanted) => exists|i: int| 0 <= i < genres.len() && #[trigger] genres[i].metadata_id == wanted,
        None => true,
    }
}

impl GameFilter {
    /// Whether a game with these genres passes the genre part of the filter.
    pub fn shows_genres(&self, genres: &Vec<Genre>) -> (shown: bool)
        ensures
            shown == spec_shows_genres(self@, genres.deep_view()),
    {
        match &self.genre_metadata_id {
            Some(wanted) => {
                assert(self@.genre_metadata_id == Some(wanted@));
                let mut i: usize = 0;
                while i < genres.len()
                    invariant
                        i <= genres.len(),
                        self@.genre_metadata_id == Some(wanted@),
                        forall|j: int|
                            0 <= j < i ==> (#[trigger] genres.deep_view()[j]).metadata_id != wanted@,
                    decreases genres.len() - i,
                {
                    assert(genres.deep_view()[i as int] == genres[i as int]@);
                    if genres[i].metadata_id == *wanted {
                        assert(genres.deep_view()[i as int].metadata_id == wanted@);
                        return true;
                    }
                    i += 1;
                }
                false
            },
            None => true,
        }
    }

    /// The install status that the filter asks for, if it asks for one.
    pub fn status_filter(&self) -> (status: Option<DbGameInstallStatus>)
        ensures
            status == spec_status_filter(self@),
    {
        if self.installed {
            Some(DbGameInstallStatus::Installed)
        } else if self.not_installed {
            Some(DbGameInstallStatus::InLibrary)
        } else {
            None
        }
    }
}

} // verus!
