//! The data that addons and the host exchange: game references, scanned
//! records, fetched metadata and catalog games.
use crate::text::str_eq;
use crate::time::{checked_instant, spec_checked_instant, utc_date, utc_date_of, CalendarDate};
use vstd::prelude::*;
use vstd::string::StringExecFns;

verus! {

/// The mathematical value of a game reference: its display name and the
/// natural key (`library_type`, `library_id`) that identifies the game.
pub struct GameRefView {
    pub name: Seq<char>,
    pub library_type: Seq<char>,
    pub library_id: Seq<char>,
}

/// A borrowed reference to a game of some addon.
#[derive(Debug, Clone, Copy)]
pub struct GameLibraryRef<'a> {
    pub name: &'a str,
    pub library_type: &'a str,
    pub library_id: &'a str,
}

impl<'a> View for GameLibraryRef<'a> {
    type V = GameRefView;

    open spec fn view(&self) -> GameRefView {
        GameRefView {
            name: self.name@,
            library_type: self.library_type@,
            library_id: self.library_id@,
        }
    }
}

impl<'a> GameLibraryRef<'a> {
    /// An owned copy of the reference.
    pub fn to_owned(self) -> (owned: GameLibraryRefOwned)
        ensures
            owned@ == self@,
    {
        GameLibraryRefOwned {
            name: self.name.to_owned(),
            library_type: self.library_type.to_owned(),
            library_id: self.library_id.to_owned(),
        }
    }

    /// The reference as a line of text: the name, then the natural key in
    /// brackets.
    pub fn label(&self) -> (text: String)
        ensures
            text@ == self@.name + " ("@ + self@.library_type + ": "@ + self@.library_id + ")"@,
    {
        let mut text = crate::text::concat3(self.name, " (", self.library_type);
        let tail = crate::text::concat3(": ", self.library_id, ")");
        text.append(tail.as_str());
        proof {
            assert(text@ =~= self@.name + " ("@ + self@.library_type + ": "@ + self@.library_id
                + ")"@);
        }
        text
    }

    /// Whether two references name the same game under the same name.
    pub fn same_as(&self, other: &GameLibraryRef<'_>) -> (same: bool)
        ensures
            same == (self@ == other@),
    {
        str_eq(self.name, other.name) && str_eq(self.library_type, other.library_type) && str_eq(
            self.library_id,
            other.library_id,
        )
    }
}

/// An owned reference to a game of some addon.
#[derive(Debug)]
pub struct GameLibraryRefOwned {
    pub name: String,
    pub library_type: String,
    pub library_id: String,
}

impl View for GameLibraryRefOwned {
    type V = GameRefView;

    open spec fn view(&self) -> GameRefView {
        GameRefView {
            name: self.name@,
            library_type: self.library_type@,
            library_id: self.library_id@,
        }
    }
}

impl DeepView for GameLibraryRefOwned {
    type V = GameRefView;

    open spec fn deep_view(&self) -> GameRefView {
        self@
    }
}

impl Clone for GameLibraryRefOwned {
    fn clone(&self) -> (copy: Self)
        ensures
            copy@ == self@,
    {
        GameLibraryRefOwned {
            name: self.name.clone(),
            library_type: self.library_type.clone(),
            library_id: self.library_id.clone(),
        }
    }
}

impl GameLibraryRefOwned {
    /// The same reference, borrowed.
    pub fn as_ref(&self) -> (borrowed: GameLibraryRef<'_>)
        ensures
            borrowed@ == self@,
    {
        GameLibraryRef {
            name: self.name.as_str(),
            library_type: self.library_type.as_str(),
            library_id: self.library_id.as_str(),
        }
    }

    /// Whether two references name the same game under the same name.
    pub fn same_as(&self, other: &GameLibraryRefOwned) -> (same: bool)
        ensures
            same == (self@ == other@),
    {
        self.name == other.name && self.library_type == other.library_type && self.library_id
            == other.library_id
    }
}

/// Where a game stands with respect to the local machine.
#[derive(Debug, Clone, Copy, PartialEq, Eq, Structural)]
pub enum GameInstallStatus {
    Installed,
    Installing,
    InLibrary,
    Queued,
    Uninstalling,
}

impl GameInstallStatus {
    /// The words shown for the status.
    pub open spec fn spec_label(self) -> Seq<char> {
        match self {
            GameInstallStatus::Installed => "Installed"@,
            GameInstallStatus::Installing => "Installing"@,
            GameInstallStatus::InLibrary => "In library"@,
            GameInstallStatus::Queued => "Queued"@,
            GameInstallStatus::Uninstalling => "Uninstalling"@,
        }
    }

    /// The words shown for the status.
    pub fn label(&self) -> (words: &'static str)
        ensures
            words@ == self.spec_label(),
    {
        match self {
            GameInstallStatus::Installed => "Installed",
            GameInstallStatus::Installing => "Installing",
            GameInstallStatus::InLibrary => "In library",
            GameInstallStatus::Queued => "Queued",
            GameInstallStatus::Uninstalling => "Uninstalling",
        }
    }
}

impl Default for GameInstallStatus {
    fn default() -> (status: Self)
        ensures
            status == GameInstallStatus::InLibrary,
    {
        GameInstallStatus::InLibrary
    }
}

/// How far the player has come with a game.
#[derive(Debug, Clone, Copy, PartialEq, Eq, Structural)]
pub enum CompletionStatus {
    Backlog,
    Playing,
    Played,
    OnHold,
}

impl CompletionStatus {
    /// The words shown for the status.
    pub open spec fn spec_label(self) -> Seq<char> {
        match self {
            CompletionStatus::Backlog => "Backlog"@,
            CompletionStatus::Playing => "Playing"@,
            CompletionStatus::Played => "Played"@,
            CompletionStatus::OnHold => "On Hold"@,
        }
    }

    /// The words shown for the status.
    pub fn label(&self) -> (words: &'static str)
        ensures
            words@ == self.spec_label(),
    {
        match self {
            CompletionStatus::Backlog => "Backlog",
            CompletionStatus::Playing => "Playing",
            CompletionStatus::Played => "Played",
            CompletionStatus::OnHold => "On Hold",
        }
    }
}

impl Default for CompletionStatus {
    fn default() -> (status: Self)
        ensures
            status == CompletionStatus::Backlog,
    {
        CompletionStatus::Backlog
    }
}

/// A type whose values an editor offers as a closed list.
pub trait EditableEnum: Sized {
    /// Every value of the type, in the order in which a list shows them.
    spec fn spec_all() -> Seq<Self>;

    /// Every value of the type, in the order in which a list shows them.
    fn all() -> (values: Vec<Self>)
        ensures
            values@ == Self::spec_all(),
    ;
}

impl EditableEnum for CompletionStatus {
    open spec fn spec_all() -> Seq<Self> {
        seq![
            CompletionStatus::Backlog,
            CompletionStatus::Playing,
            CompletionStatus::Played,
            CompletionStatus::OnHold,
        ]
    }

    fn all() -> (values: Vec<Self>) {
        let values = vec![
            CompletionStatus::Backlog,
            CompletionStatus::Playing,
            CompletionStatus::Played,
            CompletionStatus::OnHold,
        ];
        assert(values@ =~= Self::spec_all());
        values
    }
}

/// The kind of value a configuration field of an addon takes.
#[derive(Debug, Clone, Copy, PartialEq, Eq, Structural)]
pub enum ConfigSchemaKind {
    String,
    Int,
    Boolean,
}

/// The mathematical value of one declared configuration field.
pub struct ConfigSchemaView {
    pub hint: Seq<char>,
    pub name: Seq<char>,
    pub kind: ConfigSchemaKind,
}

/// One configuration field that an addon declares when it registers: what to
/// call it, what to hint and which kind of value it takes.
#[derive(Debug)]
pub struct ConfigSchemaMetadata {
    pub hint: String,
    pub name: String,
    pub kind: ConfigSchemaKind,
}

impl View for ConfigSchemaMetadata {
    type V = ConfigSchemaView;

    open spec fn view(&self) -> ConfigSchemaView {
        ConfigSchemaView { hint: self.hint@, name: self.name@, kind: self.kind }
    }
}

impl DeepView for ConfigSchemaMetadata {
    type V = ConfigSchemaView;

    open spec fn deep_view(&self) -> ConfigSchemaView {
        self@
    }
}

impl Clone for ConfigSchemaMetadata {
    fn clone(&self) -> (copy: Self)
        ensures
            copy@ == self@,
    {
        ConfigSchemaMetadata { hint: self.hint.clone(), name: self.name.clone(), kind: self.kind }
    }
}

/// The mathematical value of an addon's identity.
pub struct PluginMetadataView {
    pub id: Seq<char>,
    pub name: Seq<char>,
}

/// What an addon says of itself: its id and the name to display.
#[derive(Debug)]
pub struct PluginMetadata {
    pub id: String,
    pub name: String,
}

impl View for PluginMetadata {
    type V = PluginMetadataView;

    open spec fn view(&self) -> PluginMetadataView {
        PluginMetadataView { id: self.id@, name: self.name@ }
    }
}

impl DeepView for PluginMetadata {
    type V = PluginMetadataView;

    open spec fn deep_view(&self) -> PluginMetadataView {
        self@
    }
}

impl Clone for PluginMetadata {
    fn clone(&self) -> (copy: Self)
        ensures
            copy@ == self@,
    {
        PluginMetadata { id: self.id.clone(), name: self.name.clone() }
    }
}

/// The mathematical value of a genre reference.
pub struct GenreView {
    pub name: Seq<char>,
    pub library_id: Seq<char>,
}

/// A genre as a metadata source names it: the source's own id for the genre
/// and the words to show.
#[derive(Debug)]
pub struct GenreData {
    pub name: String,
    pub library_id: String,
}

impl View for GenreData {
    type V = GenreView;

    open spec fn view(&self) -> GenreView {
        GenreView { name: self.name@, library_id: self.library_id@ }
    }
}

impl DeepView for GenreData {
    type V = GenreView;

    open spec fn deep_view(&self) -> GenreView {
        self@
    }
}

impl Clone for GenreData {
    fn clone(&self) -> (copy: Self)
        ensures
            copy@ == self@,
    {
        GenreData { name: self.name.clone(), library_id: self.library_id.clone() }
    }
}

/// The same genre with its id in canonical form.
pub open spec fn spec_normalized_genre(genre: GenreView) -> GenreView {
    GenreView { name: genre.name, library_id: crate::text::normalized(genre.library_id) }
}

impl GenreData {
    /// The same genre with its id in canonical form.
    pub fn normalized(self) -> (genre: GenreData)
        ensures
            genre@ == spec_normalized_genre(self@),
            crate::text::is_normalized(genre@.library_id),
    {
        let library_id = crate::text::normalize_id(self.library_id.as_str());
        GenreData { name: self.name, library_id }
    }
}

/// A copy of an optional string.
pub fn clone_text(text: &Option<String>) -> (copy: Option<String>)
    ensures
        copy.deep_view() == text.deep_view(),
{
    match text {
        Some(words) => Some(words.clone()),
        None => None,
    }
}

/// A copy of a list of strings.
pub fn clone_texts(texts: &Vec<String>) -> (copy: Vec<String>)
    ensures
        copy.deep_view() == texts.deep_view(),
{
    let mut copy: Vec<String> = Vec::new();
    let mut i: usize = 0;
    while i < texts.len()
        invariant
            i <= texts.len(),
            copy.len() == i,
            forall|j: int| 0 <= j < i ==> copy[j]@ == texts[j]@,
        decreases texts.len() - i,
    {
        copy.push(texts[i].clone());
        i += 1;
    }
    assert(copy.deep_view() =~= texts.deep_view());
    copy
}

/// A copy of a list of genres.
pub fn clone_genres(genres: &Vec<GenreData>) -> (copy: Vec<GenreData>)
    ensures
        copy.deep_view() == genres.deep_view(),
{
    let mut copy: Vec<GenreData> = Vec::new();
    let mut i: usize = 0;
    while i < genres.len()
        invariant
            i <= genres.len(),
            copy.len() == i,
            forall|j: int| 0 <= j < i ==> copy[j]@ == genres[j]@,
        decreases genres.len() - i,
    {
        copy.push(genres[i].clone());
        i += 1;
    }
    assert(copy.deep_view() =~= genres.deep_view());
    copy
}

/// The mathematical value of a scanned record.
pub struct ScannedGameView {
    pub name: Seq<char>,
    pub library_type: Seq<char>,
    pub library_id: Seq<char>,
    pub last_played_epoch: Option<u64>,
    pub install_status: GameInstallStatus,
    pub playtime_secs: u64,
    pub icon_url: Option<Seq<char>>,
}

/// One game as an addon's library reports it in a scan.
#[derive(Debug)]
pub struct ScannedGameLibraryMetadata {
    pub name: String,
    pub library_type: String,
    pub library_id: String,
    pub last_played_epoch: Option<u64>,
    pub install_status: GameInstallStatus,
    pub playtime_secs: u64,
    pub icon_url: Option<String>,
}

impl View for ScannedGameLibraryMetadata {
    type V = ScannedGameView;

    open spec fn view(&self) -> ScannedGameView {
        ScannedGameView {
            name: self.name@,
            library_type: self.library_type@,
            library_id: self.library_id@,
            last_played_epoch: self.last_played_epoch,
            install_status: self.install_status,
            playtime_secs: self.playtime_secs,
            icon_url: self.icon_url.deep_view(),
        }
    }
}

impl DeepView for ScannedGameLibraryMetadata {
    type V = ScannedGameView;

    open spec fn deep_view(&self) -> ScannedGameView {
        self@
    }
}

impl Clone for ScannedGameLibraryMetadata {
    fn clone(&self) -> (copy: Self)
        ensures
            copy@ == self@,
    {
        ScannedGameLibraryMetadata {
            name: self.name.clone(),
            library_type: self.library_type.clone(),
            library_id: self.library_id.clone(),
            last_played_epoch: self.last_played_epoch,
            install_status: self.install_status,
            playtime_secs: self.playtime_secs,
            icon_url: clone_text(&self.icon_url),
        }
    }
}

/// A record with nothing known: empty texts, never played, in the library.
pub open spec fn spec_empty_scan() -> ScannedGameView {
    ScannedGameView {
        name: Seq::empty(),
        library_type: Seq::empty(),
        library_id: Seq::empty(),
        last_played_epoch: None,
        install_status: GameInstallStatus::InLibrary,
        playtime_secs: 0,
        icon_url: None,
    }
}

impl Default for ScannedGameLibraryMetadata {
    fn default() -> (record: Self)
        ensures
            record@ == spec_empty_scan(),
    {
        ScannedGameLibraryMetadata {
            name: String::new(),
            library_type: String::new(),
            library_id: String::new(),
            last_played_epoch: None,
            install_status: GameInstallStatus::InLibrary,
            playtime_secs: 0,
            icon_url: None,
        }
    }
}

/// Play time as the catalog holds it: whole seconds, at most `i64::MAX`.
pub open spec fn spec_play_time(secs: u64) -> i64 {
    if secs <= i64::MAX {
        secs as i64
    } else {
        i64::MAX
    }
}

/// The catalog game that a scanned record describes before any enrichment.
pub open spec fn spec_game_of_scan(record: ScannedGameView) -> GameDataView {
    GameDataView {
        id: 0,
        name: record.name,
        description: Seq::empty(),
        genres: Seq::empty(),
        play_time_secs: spec_play_time(record.playtime_secs),
        install_status: record.install_status,
        release_date: None,
        last_played: match record.last_played_epoch {
            Some(secs) => spec_checked_instant(secs as int),
            None => None,
        },
        icon_url: record.icon_url,
        header_url: None,
        cover_url: None,
        library_type: record.library_type,
        library_id: record.library_id,
        completion_status: CompletionStatus::Backlog,
    }
}

impl ScannedGameLibraryMetadata {
    /// The reference by which the owning addon knows the game.
    pub fn get_ref(&self) -> (game: GameLibraryRef<'_>)
        ensures
            game@ == (GameRefView {
                name: self@.name,
                library_type: self@.library_type,
                library_id: self@.library_id,
            }),
    {
        GameLibraryRef {
            name: self.name.as_str(),
            library_type: self.library_type.as_str(),
            library_id: self.library_id.as_str(),
        }
    }

    /// The catalog game that this record describes before any enrichment.
    pub fn into_game_data(self) -> (game: GameData)
        ensures
            game@ == spec_game_of_scan(self@),
    {
        let play_time_secs: i64 = if self.playtime_secs <= 0x7fff_ffff_ffff_ffff {
            self.playtime_secs as i64
        } else {
            0x7fff_ffff_ffff_ffff
        };
        let last_played = match self.last_played_epoch {
            Some(secs) => checked_instant(secs),
            None => None,
        };
        let game = GameData {
            id: 0,
            name: self.name,
            description: String::new(),
            genres: Vec::new(),
            play_time_secs,
            install_status: self.install_status,
            release_date: None,
            last_played,
            icon_url: self.icon_url,
            header_url: None,
            cover_url: None,
            library_type: self.library_type,
            library_id: self.library_id,
            completion_status: CompletionStatus::Backlog,
        };
        assert(game@.genres =~= Seq::empty());
        game
    }
}

/// The mathematical value of fetched metadata.
pub struct GameMetadataView {
    pub description: Option<Seq<char>>,
    pub developers: Seq<Seq<char>>,
    pub genres: Seq<GenreView>,
    pub platforms: Seq<Seq<char>>,
    pub publishers: Seq<Seq<char>>,
    pub series: Seq<Seq<char>>,
    pub tags: Seq<Seq<char>>,
    pub release_date_timestamp: Option<u32>,
    pub last_played_timestamp: Option<u32>,
    pub icon_url: Option<Seq<char>>,
    pub cover_url: Option<Seq<char>>,
    pub header_url: Option<Seq<char>>,
}

/// What a metadata scanner found out about one game. A field that is `None`
/// or an empty list is absent: the scanner knows nothing of it.
#[derive(Debug)]
pub struct GameMetadata {
    pub description: Option<String>,
    pub developers: Vec<String>,
    pub genres: Vec<GenreData>,
    pub platforms: Vec<String>,
    pub publishers: Vec<String>,
    pub series: Vec<String>,
    pub tags: Vec<String>,
    pub release_date_timestamp: Option<u32>,
    pub last_played_timestamp: Option<u32>,
    pub icon_url: Option<String>,
    pub cover_url: Option<String>,
    pub header_url: Option<String>,
}

impl View for GameMetadata {
    type V = GameMetadataView;

    open spec fn view(&self) -> GameMetadataView {
        GameMetadataView {
            description: self.description.deep_view(),
            developers: self.developers.deep_view(),
            genres: self.genres.deep_view(),
            platforms: self.platforms.deep_view(),
            publishers: self.publishers.deep_view(),
            series: self.series.deep_view(),
            tags: self.tags.deep_view(),
            release_date_timestamp: self.release_date_timestamp,
            last_played_timestamp: self.last_played_timestamp,
            icon_url: self.icon_url.deep_view(),
            cover_url: self.cover_url.deep_view(),
            header_url: self.header_url.deep_view(),
        }
    }
}

impl DeepView for GameMetadata {
    type V = GameMetadataView;

    open spec fn deep_view(&self) -> GameMetadataView {
        self@
    }
}

impl Clone for GameMetadata {
    fn clone(&self) -> (copy: Self)
        ensures
            copy@ == self@,
    {
        GameMetadata {
            description: clone_text(&self.description),
            developers: clone_texts(&self.developers),
            genres: clone_genres(&self.genres),
            platforms: clone_texts(&self.platforms),
            publishers: clone_texts(&self.publishers),
            series: clone_texts(&self.series),
            tags: clone_texts(&self.tags),
            release_date_timestamp: self.release_date_timestamp,
            last_played_timestamp: self.last_played_timestamp,
            icon_url: clone_text(&self.icon_url),
            cover_url: clone_text(&self.cover_url),
            header_url: clone_text(&self.header_url),
        }
    }
}

/// Metadata with every field absent.
pub open spec fn spec_empty_metadata() -> GameMetadataView {
    GameMetadataView {
        description: None,
        developers: Seq::empty(),
        genres: Seq::empty(),
        platforms: Seq::empty(),
        publishers: Seq::empty(),
        series: Seq::empty(),
        tags: Seq::empty(),
        release_date_timestamp: None,
        last_played_timestamp: None,
        icon_url: None,
        cover_url: None,
        header_url: None,
    }
}

impl Default for GameMetadata {
    fn default() -> (metadata: Self)
        ensures
            metadata@ == spec_empty_metadata(),
    {
        let metadata = GameMetadata {
            description: None,
            developers: Vec::new(),
            genres: Vec::new(),
            platforms: Vec::new(),
            publishers: Vec::new(),
            series: Vec::new(),
            tags: Vec::new(),
            release_date_timestamp: None,
            last_played_timestamp: None,
            icon_url: None,
            cover_url: None,
            header_url: None,
        };
        assert(metadata@.developers =~= Seq::empty());
        assert(metadata@.genres =~= Seq::empty());
        assert(metadata@.platforms =~= Seq::empty());
        assert(metadata@.publishers =~= Seq::empty());
        assert(metadata@.series =~= Seq::empty());
        assert(metadata@.tags =~= Seq::empty());
        metadata
    }
}

/// The same metadata with every genre id in canonical form.
pub open spec fn spec_normalized_metadata(metadata: GameMetadataView) -> GameMetadataView {
    GameMetadataView {
        genres: metadata.genres.map_values(|genre: GenreView| spec_normalized_genre(genre)),
        ..metadata
    }
}

/// Every genre id of the metadata is canonical.
pub open spec fn genres_normalized(genres: Seq<GenreView>) -> bool {
    forall|i: int| 0 <= i < genres.len() ==> crate::text::is_normalized(#[trigger] genres[i].library_id)
}

impl GameMetadata {
    /// The metadata as the core holds it from the moment it comes in: every
    /// genre id in canonical form, everything else as received.
    pub fn normalized(self) -> (metadata: GameMetadata)
        ensures
            metadata@ == spec_normalized_metadata(self@),
            genres_normalized(metadata@.genres),
    {
        let ghost before = self@;
        let mut genres: Vec<GenreData> = Vec::new();
        let mut i: usize = 0;
        while i < self.genres.len()
            invariant
                i <= self.genres.len(),
                genres.len() == i,
                forall|j: int| 0 <= j < i ==> genres[j]@ == spec_normalized_genre(self.genres[j]@),
                forall|j: int| 0 <= j < i ==> crate::text::is_normalized(genres[j]@.library_id),
            decreases self.genres.len() - i,
        {
            genres.push(self.genres[i].clone().normalized());
            i += 1;
        }
        let metadata = GameMetadata {
            description: self.description,
            developers: self.developers,
            genres,
            platforms: self.platforms,
            publishers: self.publishers,
            series: self.series,
            tags: self.tags,
            release_date_timestamp: self.release_date_timestamp,
            last_played_timestamp: self.last_played_timestamp,
            icon_url: self.icon_url,
            cover_url: self.cover_url,
            header_url: self.header_url,
        };
        assert(metadata@.genres =~= spec_normalized_metadata(before).genres);
        metadata
    }
}

/// The mathematical value of a catalog game.
pub struct GameDataView {
    pub id: i32,
    pub name: Seq<char>,
    pub description: Seq<char>,
    pub genres: Seq<GenreView>,
    pub play_time_secs: i64,
    pub install_status: GameInstallStatus,
    pub release_date: Option<CalendarDate>,
    pub last_played: Option<i64>,
    pub icon_url: Option<Seq<char>>,
    pub header_url: Option<Seq<char>>,
    pub cover_url: Option<Seq<char>>,
    pub library_type: Seq<char>,
    pub library_id: Seq<char>,
    pub completion_status: CompletionStatus,
}

/// A game as the catalog holds it. `last_played` counts seconds since
/// 1970-01-01T00:00:00Z; `play_time_secs` is the time played in seconds.
#[derive(Debug)]
pub struct GameData {
    pub id: i32,
    pub name: String,
    pub description: String,
    pub genres: Vec<GenreData>,
    pub play_time_secs: i64,
    pub install_status: GameInstallStatus,
    pub release_date: Option<CalendarDate>,
    pub last_played: Option<i64>,
    pub icon_url: Option<String>,
    pub header_url: Option<String>,
    pub cover_url: Option<String>,
    pub library_type: String,
    pub library_id: String,
    pub completion_status: CompletionStatus,
}

impl View for GameData {
    type V = GameDataView;

    open spec fn view(&self) -> GameDataView {
        GameDataView {
            id: self.id,
            name: self.name@,
            description: self.description@,
            genres: self.genres.deep_view(),
            play_time_secs: self.play_time_secs,
            install_status: self.install_status,
            release_date: self.release_date,
            last_played: self.last_played,
            icon_url: self.icon_url.deep_view(),
            header_url: self.header_url.deep_view(),
            cover_url: self.cover_url.deep_view(),
            library_type: self.library_type@,
            library_id: self.library_id@,
            completion_status: self.completion_status,
        }
    }
}

impl DeepView for GameData {
    type V = GameDataView;

    open spec fn deep_view(&self) -> GameDataView {
        self@
    }
}

impl Clone for GameData {
    fn clone(&self) -> (copy: Self)
        ensures
            copy@ == self@,
    {
        GameData {
            id: self.id,
            name: self.name.clone(),
            description: self.description.clone(),
            genres: clone_genres(&self.genres),
            play_time_secs: self.play_time_secs,
            install_status: self.install_status,
            release_date: self.release_date,
            last_played: self.last_played,
            icon_url: clone_text(&self.icon_url),
            header_url: clone_text(&self.header_url),
            cover_url: clone_text(&self.cover_url),
            library_type: self.library_type.clone(),
            library_id: self.library_id.clone(),
            completion_status: self.completion_status,
        }
    }
}

/// A game of which nothing is known.
pub open spec fn spec_empty_game() -> GameDataView {
    spec_game_of_scan(spec_empty_scan())
}

impl Default for GameData {
    fn default() -> (game: Self)
        ensures
            game@ == spec_empty_game(),
    {
        ScannedGameLibraryMetadata::default().into_game_data()
    }
}

/// The value that a merge leaves in an optional field: what the metadata
/// brings where it brings something, else what was known before.
pub open spec fn spec_prefer<T>(fresh: Option<T>, known: Option<T>) -> Option<T> {
    match fresh {
        Some(_) => fresh,
        None => known,
    }
}

/// The game after metadata has been merged into it. The merge only adds: a
/// field that the metadata holds replaces the game's, a field that the
/// metadata lacks leaves the game's as it was.
pub open spec fn spec_extend(game: GameDataView, metadata: GameMetadataView) -> GameDataView {
    GameDataView {
        genres: if metadata.genres.len() > 0 {
            metadata.genres
        } else {
            game.genres
        },
        description: match metadata.description {
            Some(words) => words,
            None => game.description,
        },
        icon_url: spec_prefer(metadata.icon_url, game.icon_url),
        header_url: spec_prefer(metadata.header_url, game.header_url),
        cover_url: spec_prefer(metadata.cover_url, game.cover_url),
        release_date: match metadata.release_date_timestamp {
            Some(secs) => utc_date_of(secs as int),
            None => game.release_date,
        },
        ..game
    }
}

impl GameData {
    /// The reference by which the owning addon knows the game.
    pub fn get_ref(&self) -> (game: GameLibraryRef<'_>)
        ensures
            game@ == (GameRefView {
                name: self@.name,
                library_type: self@.library_type,
                library_id: self@.library_id,
            }),
    {
        GameLibraryRef {
            name: self.name.as_str(),
            library_type: self.library_type.as_str(),
            library_id: self.library_id.as_str(),
        }
    }

    /// An owned reference to the game.
    pub fn get_owned_ref(&self) -> (game: GameLibraryRefOwned)
        ensures
            game@ == (GameRefView {
                name: self@.name,
                library_type: self@.library_type,
                library_id: self@.library_id,
            }),
    {
        self.get_ref().to_owned()
    }

    /// Merges fetched metadata into the game, additively. A release date
    /// that the metadata brings is a day of the calendar, so the merge never
    /// leaves the game without a release date that it had.
    pub fn extend(&mut self, metadata: GameMetadata)
        ensures
            final(self)@ == spec_extend(old(self)@, metadata@),
            metadata@.release_date_timestamp is Some ==> final(self)@.release_date is Some,
            old(self)@.release_date is Some ==> final(self)@.release_date is Some,
    {
        if metadata.genres.len() > 0 {
            self.genres = metadata.genres;
        }
        if let Some(description) = metadata.description {
            self.description = description;
        }
        if let Some(icon_url) = metadata.icon_url {
            self.icon_url = Some(icon_url);
        }
        if let Some(header_url) = metadata.header_url {
            self.header_url = Some(header_url);
        }
        if let Some(cover_url) = metadata.cover_url {
            self.cover_url = Some(cover_url);
        }
        if let Some(secs) = metadata.release_date_timestamp {
            self.release_date = utc_date(secs as i64);
        }
    }
}

/// Merging metadata in which every field is absent changes nothing.
pub proof fn lemma_extend_with_nothing(game: GameDataView)
    ensures
        spec_extend(game, spec_empty_metadata()) == game,
{
}

/// A merge never touches the natural key, the name or what the player did.
pub proof fn lemma_extend_keeps_identity(game: GameDataView, metadata: GameMetadataView)
    ensures
        spec_extend(game, metadata).library_type == game.library_type,
        spec_extend(game, metadata).library_id == game.library_id,
        spec_extend(game, metadata).name == game.name,
        spec_extend(game, metadata).id == game.id,
        spec_extend(game, metadata).play_time_secs == game.play_time_secs,
        spec_extend(game, metadata).last_played == game.last_played,
        spec_extend(game, metadata).install_status == game.install_status,
        spec_extend(game, metadata).completion_status == game.completion_status,
{
}

/// What scanned records and catalog games have in common: each names a game
/// of some addon.
pub trait GameCommon {
    /// The value of the reference by which the owning addon knows the game.
    spec fn spec_ref(&self) -> GameRefView;

    /// The reference by which the owning addon knows the game.
    fn get_ref(&self) -> (game: GameLibraryRef<'_>)
        ensures
            game@ == self.spec_ref(),
    ;

    /// An owned reference to the game.
    fn get_owned_ref(&self) -> (game: GameLibraryRefOwned)
        ensures
            game@ == self.spec_ref(),
    ;
}

impl GameCommon for ScannedGameLibraryMetadata {
    open spec fn spec_ref(&self) -> GameRefView {
        GameRefView {
            name: self@.name,
            library_type: self@.library_type,
            library_id: self@.library_id,
        }
    }

    fn get_ref(&self) -> (game: GameLibraryRef<'_>) {
        ScannedGameLibraryMetadata::get_ref(self)
    }

    fn get_owned_ref(&self) -> (game: GameLibraryRefOwned) {
        ScannedGameLibraryMetadata::get_ref(self).to_owned()
    }
}

impl GameCommon for GameData {
    open spec fn spec_ref(&self) -> GameRefView {
        GameRefView {
            name: self@.name,
            library_type: self@.library_type,
            library_id: self@.library_id,
        }
    }

    fn get_ref(&self) -> (game: GameLibraryRef<'_>) {
        GameData::get_ref(self)
    }

    fn get_owned_ref(&self) -> (game: GameLibraryRefOwned) {
        GameData::get_owned_ref(self)
    }
}

/// What can be asked of anything that names a game: the name and the two
/// parts of the natural key.
pub trait IsGameLibraryRef {
    /// The value of the reference.
    spec fn spec_game_ref(&self) -> GameRefView;

    fn get_name(&self) -> (name: &str)
        ensures
            name@ == self.spec_game_ref().name,
    ;

    fn get_library_type(&self) -> (library_type: &str)
        ensures
            library_type@ == self.spec_game_ref().library_type,
    ;

    fn get_library_id(&self) -> (library_id: &str)
        ensures
            library_id@ == self.spec_game_ref().library_id,
    ;
}

} // verus!
