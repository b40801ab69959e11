//! The sync pass of one addon: scan, difference against the catalog,
//! metadata enrichment and one transaction that writes genres, games and
//! links. The pass is a state machine. It decides; its caller does the work:
//! the caller performs each command and reports what came of it as an event.
//! A pass holds all of its state, so passes of different addons never touch.
use crate::catalog::{spec_genre_row, GameGenre, Genre, GenreRowView};
use crate::fetch::FetchProgress;
use crate::models::{
    GameData, GameDataView, GameLibraryRefOwned, GameMetadata, GameMetadataView, GameRefView,
    GenreData, GenreView, ScannedGameLibraryMetadata, ScannedGameView,
};
use crate::plan::{
    candidate_ids, fetch_targets, genre_ids, genres_to_create, ingest, lemma_genres_of_contains,
    lemma_genres_to_create, lemma_new_games, plan_games, select_new_games, spec_candidate_ids,
    spec_fetch_targets,
    spec_genre_ids, spec_genres_of, spec_genres_to_create, spec_ids_of, spec_ingest,
    spec_new_games, spec_planned_games, PlannedGame, PlannedGameView,
};
use crate::table::StringTable;
use crate::text::{lemma_distinct, spec_distinct};
use vstd::prelude::*;

verus! {

/// What a pass tells whoever watches it.
#[derive(Debug, Clone, Copy, PartialEq, Eq, Structural)]
pub enum SyncProgressEvent {
    LibraryScan,
    FetchingMetadata { current: usize, total: usize },
    Done,
}

/// Why a pass ended without a commit.
#[derive(Debug, Clone, Copy, PartialEq, Eq, Structural)]
pub enum SyncError {
    /// The addon's scan failed. Nothing was written.
    AddonCapabilityFault,
    /// The catalog refused a query or a write. Nothing of the pass is
    /// visible in the catalog.
    TransactionError,
}

/// What a committed pass wrote.
#[derive(Debug, Clone, Copy, PartialEq, Eq, Structural)]
pub struct SyncReport {
    pub games_added: usize,
    pub genres_added: usize,
}

/// Where a pass stands: the work whose outcome it waits for.
#[derive(Debug, Clone, Copy, PartialEq, Eq, Structural)]
pub enum SyncStage {
    Scanning,
    FindingGames,
    Fetching,
    FindingGenres,
    Opening,
    WritingGenres,
    WritingGames,
    WritingLinks,
    Committing,
    RollingBack,
    Finished,
}

/// The mathematical value of a command.
pub enum CommandView {
    Scan,
    FindExistingGames { addon: Seq<char>, ids: Seq<Seq<char>> },
    FetchMetadata { games: Seq<GameRefView>, total: nat },
    FindExistingGenres { addon: Seq<char>, ids: Seq<Seq<char>> },
    Begin,
    InsertGenre { row: GenreRowView },
    InsertGame { game: GameDataView },
    InsertLinks { links: Seq<GameGenre> },
    Commit,
    Rollback,
    Finish { outcome: Result<SyncReport, SyncError> },
}

/// What the caller of a pass is to do next.
#[derive(Debug)]
pub enum SyncCommand {
    /// Ask the addon's game library for its games.
    Scan,
    /// Ask the catalog which of these library ids it holds for the addon.
    FindExistingGames { addon: String, ids: Vec<String> },
    /// Fetch metadata for these games; `total` new games await enrichment.
    FetchMetadata { games: Vec<GameLibraryRefOwned>, total: usize },
    /// Ask the catalog for the row ids of the genres it holds for the addon
    /// under these ids.
    FindExistingGenres { addon: String, ids: Vec<String> },
    /// Open the transaction of the pass.
    Begin,
    /// Insert this genre row and report the id that the catalog gave it.
    InsertGenre { row: Genre },
    /// Insert this game and report the id that the catalog gave its row.
    InsertGame { game: GameData },
    /// Insert these link rows.
    InsertLinks { links: Vec<GameGenre> },
    Commit,
    Rollback,
    /// The pass is over.
    Finish { outcome: Result<SyncReport, SyncError> },
}

impl View for SyncCommand {
    type V = CommandView;

    open spec fn view(&self) -> CommandView {
        match self {
            SyncCommand::Scan => CommandView::Scan,
            SyncCommand::FindExistingGames { addon, ids } => CommandView::FindExistingGames {
                addon: addon@,
                ids: ids.deep_view(),
            },
            SyncCommand::FetchMetadata { games, total } => CommandView::FetchMetadata {
                games: games.deep_view(),
                total: *total as nat,
            },
            SyncCommand::FindExistingGenres { addon, ids } => CommandView::FindExistingGenres {
                addon: addon@,
                ids: ids.deep_view(),
            },
            SyncCommand::Begin => CommandView::Begin,
            SyncCommand::InsertGenre { row } => CommandView::InsertGenre { row: row@ },
            SyncCommand::InsertGame { game } => CommandView::InsertGame { game: game@ },
            SyncCommand::InsertLinks { links } => CommandView::InsertLinks { links: links@ },
            SyncCommand::Commit => CommandView::Commit,
            SyncCommand::Rollback => CommandView::Rollback,
            SyncCommand::Finish { outcome } => CommandView::Finish { outcome: *outcome },
        }
    }
}

/// The mathematical value of an event.
pub enum EventView {
    Scanned(Seq<ScannedGameView>),
    ExistingGames(Seq<Seq<char>>),
    Metadata(Seq<(GameRefView, GameMetadataView)>),
    ExistingGenres(Seq<(Seq<char>, i32)>),
    Began,
    Inserted(i32),
    LinksInserted,
    Committed,
    RolledBack,
    Failed,
}

/// What came of the last command.
#[derive(Debug)]
pub enum SyncEvent {
    Scanned(Vec<ScannedGameLibraryMetadata>),
    ExistingGames(Vec<String>),
    /// The metadata that came, each with the game it is for. A game whose
    /// fetch failed is not among them.
    Metadata(Vec<(GameLibraryRefOwned, GameMetadata)>),
    /// Genre ids that the catalog holds, each with the id of its row.
    ExistingGenres(Vec<(String, i32)>),
    Began,
    /// The id that the catalog gave to the row just inserted.
    Inserted(i32),
    LinksInserted,
    Committed,
    RolledBack,
    /// The work could not be done.
    Failed,
}

impl View for SyncEvent {
    type V = EventView;

    open spec fn view(&self) -> EventView {
        match self {
            SyncEvent::Scanned(records) => EventView::Scanned(records.deep_view()),
            SyncEvent::ExistingGames(ids) => EventView::ExistingGames(ids.deep_view()),
            SyncEvent::Metadata(results) => EventView::Metadata(results.deep_view()),
            SyncEvent::ExistingGenres(rows) => EventView::ExistingGenres(rows.deep_view()),
            SyncEvent::Began => EventView::Began,
            SyncEvent::Inserted(id) => EventView::Inserted(*id),
            SyncEvent::LinksInserted => EventView::LinksInserted,
            SyncEvent::Committed => EventView::Committed,
            SyncEvent::RolledBack => EventView::RolledBack,
            SyncEvent::Failed => EventView::Failed,
        }
    }
}

/// The mathematical value of a pass.
pub struct SyncPassView {
    pub addon: Seq<char>,
    pub has_scanner: bool,
    pub stage: SyncStage,
    pub scanned: Seq<ScannedGameView>,
    pub new_games: Seq<GameDataView>,
    pub planned: Seq<PlannedGameView>,
    pub genres: Seq<GenreView>,
    pub rows: Map<Seq<char>, i32>,
    pub cursor: nat,
    pub outcome: Option<Result<SyncReport, SyncError>>,
}

/// The map from genre ids to row ids that a list of pairs stands for; a
/// later pair wins over an earlier one with the same id.
pub open spec fn spec_genre_rows(pairs: Seq<(Seq<char>, i32)>) -> Map<Seq<char>, i32>
    decreases pairs.len(),
{
    if pairs.len() == 0 {
        Map::empty()
    } else {
        spec_genre_rows(pairs.drop_last()).insert(pairs.last().0, pairs.last().1)
    }
}

/// The link rows of a game: one for each of its genre ids, to the row that
/// stands for that id.
pub open spec fn spec_links(game_row: i32, ids: Seq<Seq<char>>, rows: Map<Seq<char>, i32>) -> Seq<
    GameGenre,
> {
    ids.map_values(|id: Seq<char>| GameGenre { game_id: game_row, genre_id: rows[id] })
}

/// The pass at its start and the first command.
pub open spec fn spec_start(addon: Seq<char>, has_scanner: bool) -> (SyncPassView, CommandView) {
    (
        SyncPassView {
            addon,
            has_scanner,
            stage: SyncStage::Scanning,
            scanned: Seq::empty(),
            new_games: Seq::empty(),
            planned: Seq::empty(),
            genres: Seq::empty(),
            rows: Map::empty(),
            cursor: 0,
            outcome: None,
        },
        CommandView::Scan,
    )
}

/// The pass ends without having written.
pub open spec fn spec_fail(pass: SyncPassView, error: SyncError) -> (SyncPassView, CommandView) {
    (
        SyncPassView { stage: SyncStage::Finished, outcome: Some(Err(error)), ..pass },
        CommandView::Finish { outcome: Err(error) },
    )
}

/// The pass gives up its open transaction.
pub open spec fn spec_rollback(pass: SyncPassView) -> (SyncPassView, CommandView) {
    (SyncPassView { stage: SyncStage::RollingBack, ..pass }, CommandView::Rollback)
}

/// The pass turns to the game at its cursor, or commits when none is left.
pub open spec fn spec_next_game(pass: SyncPassView) -> (SyncPassView, CommandView) {
    if pass.cursor < pass.planned.len() {
        (
            SyncPassView { stage: SyncStage::WritingGames, ..pass },
            CommandView::InsertGame { game: pass.planned[pass.cursor as int].game },
        )
    } else {
        (SyncPassView { stage: SyncStage::Committing, ..pass }, CommandView::Commit)
    }
}

/// The pass turns to the genre at its cursor, or to the first game when no
/// genre is left.
pub open spec fn spec_next_genre(pass: SyncPassView) -> (SyncPassView, CommandView) {
    if pass.cursor < pass.genres.len() {
        (
            SyncPassView { stage: SyncStage::WritingGenres, ..pass },
            CommandView::InsertGenre { row: spec_genre_row(pass.addon, pass.genres[pass.cursor as int]) },
        )
    } else {
        spec_next_game(SyncPassView { cursor: 0, ..pass })
    }
}

/// The pass plans its writes from the metadata that came.
pub open spec fn spec_planning(pass: SyncPassView, results: Seq<(GameRefView, GameMetadataView)>) -> (
    SyncPassView,
    CommandView,
) {
    let planned = spec_planned_games(pass.new_games, spec_ingest(results));
    (
        SyncPassView { stage: SyncStage::FindingGenres, planned, ..pass },
        CommandView::FindExistingGenres { addon: pass.addon, ids: spec_genre_ids(planned) },
    )
}

/// The transition of a pass: the pass after an event, and the next command.
///
/// A failure of the scan ends the pass. A failure of the fetch costs the
/// games their enrichment and nothing else. A failure of the catalog before
/// the transaction is open ends the pass; one inside the transaction rolls
/// it back first. An event that the pass does not wait for counts as a
/// failure of the work it waits for.
pub open spec fn spec_step(pass: SyncPassView, event: EventView) -> (SyncPassView, CommandView) {
    match pass.stage {
        SyncStage::Scanning => match event {
            EventView::Scanned(records) => (
                SyncPassView { stage: SyncStage::FindingGames, scanned: records, ..pass },
                CommandView::FindExistingGames { addon: pass.addon, ids: spec_candidate_ids(records) },
            ),
            _ => spec_fail(pass, SyncError::AddonCapabilityFault),
        },
        SyncStage::FindingGames => match event {
            EventView::ExistingGames(ids) => {
                let new_games = spec_new_games(pass.addon, pass.scanned, ids.to_set());
                (
                    SyncPassView { stage: SyncStage::Fetching, new_games, ..pass },
                    CommandView::FetchMetadata {
                        games: if pass.has_scanner {
                            spec_fetch_targets(pass.addon, new_games)
                        } else {
                            Seq::empty()
                        },
                        total: new_games.len(),
                    },
                )
            },
            _ => spec_fail(pass, SyncError::TransactionError),
        },
        SyncStage::Fetching => match event {
            EventView::Metadata(results) => spec_planning(pass, results),
            _ => spec_planning(pass, Seq::empty()),
        },
        SyncStage::FindingGenres => match event {
            EventView::ExistingGenres(pairs) => {
                let rows = spec_genre_rows(pairs);
                (
                    SyncPassView {
                        stage: SyncStage::Opening,
                        rows,
                        genres: spec_genres_to_create(spec_genres_of(pass.planned), rows.dom()),
                        cursor: 0,
                        ..pass
                    },
                    CommandView::Begin,
                )
            },
            _ => spec_fail(pass, SyncError::TransactionError),
        },
        SyncStage::Opening => match event {
            EventView::Began => spec_next_genre(pass),
            _ => spec_fail(pass, SyncError::TransactionError),
        },
        SyncStage::WritingGenres => match event {
            EventView::Inserted(id) => spec_next_genre(
                SyncPassView {
                    rows: pass.rows.insert(pass.genres[pass.cursor as int].library_id, id),
                    cursor: pass.cursor + 1,
                    ..pass
                },
            ),
            _ => spec_rollback(pass),
        },
        SyncStage::WritingGames => match event {
            EventView::Inserted(id) => if pass.planned[pass.cursor as int].genre_ids.len() > 0 {
                (
                    SyncPassView { stage: SyncStage::WritingLinks, ..pass },
                    CommandView::InsertLinks {
                        links: spec_links(id, pass.planned[pass.cursor as int].genre_ids, pass.rows),
                    },
                )
            } else {
                spec_next_game(SyncPassView { cursor: pass.cursor + 1, ..pass })
            },
            _ => spec_rollback(pass),
        },
        SyncStage::WritingLinks => match event {
            EventView::LinksInserted => spec_next_game(
                SyncPassView { cursor: pass.cursor + 1, ..pass },
            ),
            _ => spec_rollback(pass),
        },
        SyncStage::Committing => match event {
            EventView::Committed => {
                let report = SyncReport {
                    games_added: pass.planned.len() as usize,
                    genres_added: pass.genres.len() as usize,
                };
                (
                    SyncPassView { stage: SyncStage::Finished, outcome: Some(Ok(report)), ..pass },
                    CommandView::Finish { outcome: Ok(report) },
                )
            },
            _ => spec_rollback(pass),
        },
        SyncStage::RollingBack => spec_fail(pass, SyncError::TransactionError),
        SyncStage::Finished => (
            pass,
            CommandView::Finish {
                outcome: match pass.outcome {
                    Some(outcome) => outcome,
                    None => Err(SyncError::TransactionError),
                },
            },
        ),
    }
}

/// Every genre id that a planned game carries has a row, or one of the
/// genres from position `from` on will bring it one.
pub open spec fn links_resolvable(pass: SyncPassView, from: int) -> bool {
    forall|k: int, m: int|
        0 <= k < pass.planned.len() && 0 <= m < pass.planned[k].genre_ids.len() ==> {
            let id = #[trigger] pass.planned[k].genre_ids[m];
            pass.rows.dom().contains(id) || exists|j: int|
                from <= j < pass.genres.len() && #[trigger] pass.genres[j].library_id == id
        }
}

/// What holds of a pass between any two steps.
pub open spec fn pass_invariant(pass: SyncPassView) -> bool {
    &&& forall|k: int|
        0 <= k < pass.planned.len() ==> (#[trigger] pass.planned[k]).genre_ids == spec_distinct(
            spec_ids_of(pass.planned[k].game.genres),
        )
    &&& pass.stage is WritingGenres ==> pass.cursor < pass.genres.len()
    &&& (pass.stage is WritingGames || pass.stage is WritingLinks) ==> pass.cursor
        < pass.planned.len()
    &&& pass.stage is Finished <==> pass.outcome is Some
    &&& pass.stage is Committing ==> pass.cursor == pass.planned.len()
    &&& pass.outcome matches Some(Ok(report)) ==> report.games_added == pass.planned.len() as usize
        && report.genres_added == pass.genres.len() as usize && pass.planned.len()
        == pass.new_games.len()
    &&& (pass.stage is FindingGenres || pass.stage is Opening || pass.stage is WritingGenres
        || pass.stage is WritingGames || pass.stage is WritingLinks || pass.stage is Committing
        || pass.stage is RollingBack) ==> pass.planned.len() == pass.new_games.len()
    &&& pass.stage is Opening ==> pass.cursor == 0
    &&& (pass.stage is Opening || pass.stage is WritingGenres) ==> links_resolvable(
        pass,
        pass.cursor as int,
    )
    &&& (pass.stage is WritingGames || pass.stage is WritingLinks) ==> links_resolvable(
        pass,
        pass.genres.len() as int,
    )
}

/// What a command means to whoever watches the pass.
pub open spec fn spec_progress_of(command: CommandView) -> Option<SyncProgressEvent> {
    match command {
        CommandView::Scan => Some(SyncProgressEvent::LibraryScan),
        CommandView::FetchMetadata { games, total } => Some(
            SyncProgressEvent::FetchingMetadata { current: 0, total: total as usize },
        ),
        CommandView::Finish { outcome } => Some(SyncProgressEvent::Done),
        _ => None,
    }
}

/// The progress to announce before a command is performed, if it opens a
/// phase: the scan, the enrichment, or the end of the pass.
pub fn progress_of(command: &SyncCommand) -> (progress: Option<SyncProgressEvent>)
    ensures
        progress == spec_progress_of(command@),
{
    match command {
        SyncCommand::Scan => Some(SyncProgressEvent::LibraryScan),
        SyncCommand::FetchMetadata { games, total } => Some(
            SyncProgressEvent::FetchingMetadata { current: 0, total: *total },
        ),
        SyncCommand::Finish { outcome } => Some(SyncProgressEvent::Done),
        _ => None,
    }
}

/// The progress to announce for a tick of the fetch engine.
pub fn progress_of_tick(tick: FetchProgress) -> (progress: SyncProgressEvent)
    ensures
        progress == (SyncProgressEvent::FetchingMetadata { current: tick.current, total: tick.total }),
{
    SyncProgressEvent::FetchingMetadata { current: tick.current, total: tick.total }
}

/// Once the existing genres are known, every genre id of a planned game has
/// a row or is among the genres to create.
proof fn lemma_links_resolvable_at_opening(pass: SyncPassView)
    requires
        forall|k: int|
            0 <= k < pass.planned.len() ==> (#[trigger] pass.planned[k]).genre_ids == spec_distinct(
                spec_ids_of(pass.planned[k].game.genres),
            ),
        pass.genres == spec_genres_to_create(spec_genres_of(pass.planned), pass.rows.dom()),
    ensures
        links_resolvable(pass, 0),
{
    let all = spec_genres_of(pass.planned);
    lemma_genres_to_create(all, pass.rows.dom());
    assert forall|k: int, m: int|
        0 <= k < pass.planned.len() && 0 <= m < pass.planned[k].genre_ids.len() implies {
        let id = #[trigger] pass.planned[k].genre_ids[m];
        pass.rows.dom().contains(id) || exists|j: int|
            0 <= j < pass.genres.len() && #[trigger] pass.genres[j].library_id == id
    } by {
        let listed = pass.planned[k].game.genres;
        let id = pass.planned[k].genre_ids[m];
        assert(pass.planned[k].genre_ids == spec_distinct(spec_ids_of(listed)));
        lemma_distinct(spec_ids_of(listed));
        assert(spec_distinct(spec_ids_of(listed)).contains(id));
        assert(spec_ids_of(listed).contains(id));
        let n = choose|n: int| 0 <= n < spec_ids_of(listed).len() && spec_ids_of(listed)[n] == id;
        lemma_genres_of_contains(pass.planned, k, n);
        let at = choose|at: int| 0 <= at < all.len() && all[at] == listed[n];
        assert(all[at].library_id == id);
        if !pass.rows.dom().contains(id) {
            assert(spec_ids_of(pass.genres).contains(id));
            let j = choose|j: int|
                0 <= j < spec_ids_of(pass.genres).len() && spec_ids_of(pass.genres)[j] == id;
            assert(pass.genres[j].library_id == id);
        }
    }
}

/// A planned game carries each of its genre ids once.
proof fn lemma_planned_consistent(
    new_games: Seq<GameDataView>,
    results: Seq<(GameRefView, GameMetadataView)>,
)
    ensures
        forall|k: int|
            0 <= k < spec_planned_games(new_games, results).len() ==> (#[trigger] spec_planned_games(
                new_games,
                results,
            )[k]).genre_ids == spec_distinct(
                spec_ids_of(spec_planned_games(new_games, results)[k].game.genres),
            ),
{
}

/// The invariant carries over from the genre at the cursor to the next one.
proof fn lemma_links_resolvable_after_genre(pass: SyncPassView, id: i32)
    requires
        pass.cursor < pass.genres.len(),
        links_resolvable(pass, pass.cursor as int),
    ensures
        links_resolvable(
            SyncPassView {
                rows: pass.rows.insert(pass.genres[pass.cursor as int].library_id, id),
                cursor: pass.cursor + 1,
                ..pass
            },
            pass.cursor as int + 1,
        ),
{
    let next = SyncPassView {
        rows: pass.rows.insert(pass.genres[pass.cursor as int].library_id, id),
        cursor: pass.cursor + 1,
        ..pass
    };
    assert forall|k: int, m: int|
        0 <= k < next.planned.len() && 0 <= m < next.planned[k].genre_ids.len() implies {
        let wanted = #[trigger] next.planned[k].genre_ids[m];
        next.rows.dom().contains(wanted) || exists|j: int|
            pass.cursor + 1 <= j < next.genres.len() && #[trigger] next.genres[j].library_id == wanted
    } by {
        let wanted = pass.planned[k].genre_ids[m];
        if !pass.rows.dom().contains(wanted) {
            let j = choose|j: int|
                pass.cursor <= j < pass.genres.len() && #[trigger] pass.genres[j].library_id == wanted;
            if j != pass.cursor {
                assert(next.genres[j].library_id == wanted);
            }
        }
    }
}

/// Whether links can be resolved does not depend on the stage or the cursor.
proof fn lemma_links_resolvable_frame(pass: SyncPassView, other: SyncPassView, from: int)
    requires
        links_resolvable(pass, from),
        other.planned == pass.planned,
        other.genres == pass.genres,
        other.rows == pass.rows,
    ensures
        links_resolvable(other, from),
{
    assert forall|k: int, m: int|
        0 <= k < other.planned.len() && 0 <= m < other.planned[k].genre_ids.len() implies {
        let wanted = #[trigger] other.planned[k].genre_ids[m];
        other.rows.dom().contains(wanted) || exists|j: int|
            from <= j < other.genres.len() && #[trigger] other.genres[j].library_id == wanted
    } by {
        let wanted = pass.planned[k].genre_ids[m];
        assert(pass.rows.dom().contains(wanted) || exists|j: int|
            from <= j < pass.genres.len() && #[trigger] pass.genres[j].library_id == wanted);
    }
}

/// The invariant of a pass holds at its start.
pub proof fn lemma_start_establishes_invariant(addon: Seq<char>, has_scanner: bool)
    ensures
        pass_invariant(spec_start(addon, has_scanner).0),
{
}

/// The invariant of a pass holds in every state: whatever event comes, the
/// pass after the step satisfies it again. In particular the pass commits
/// only once every planned game has had its turn, a genre id that a planned
/// game carries has a row by the time the games are written, and the report
/// of a committed pass counts every planned game.
pub proof fn lemma_step_keeps_invariant(pass: SyncPassView, event: EventView)
    requires
        pass_invariant(pass),
    ensures
        pass_invariant(spec_step(pass, event).0),
{
    let next = spec_step(pass, event).0;
    match pass.stage {
        SyncStage::Scanning => {
            assert(pass_invariant(next));
        },
        SyncStage::FindingGames => {
            assert(pass_invariant(next));
        },
        SyncStage::Fetching => {
            let results = match event {
                EventView::Metadata(results) => results,
                _ => Seq::empty(),
            };
            lemma_planned_consistent(pass.new_games, spec_ingest(results));
            assert(pass_invariant(next));
        },
        SyncStage::FindingGenres => {
            if event is ExistingGenres {
                lemma_links_resolvable_at_opening(next);
            }
            assert(pass_invariant(next));
        },
        SyncStage::Opening => {
            if event is Began {
                if pass.cursor < pass.genres.len() {
                    lemma_links_resolvable_frame(pass, next, pass.cursor as int);
                } else {
                    lemma_links_resolvable_frame(pass, next, pass.genres.len() as int);
                }
            }
            assert(pass_invariant(next));
        },
        SyncStage::WritingGenres => {
            match event {
                EventView::Inserted(id) => {
                    lemma_links_resolvable_after_genre(pass, id);
                    let middle = SyncPassView {
                        rows: pass.rows.insert(pass.genres[pass.cursor as int].library_id, id),
                        cursor: pass.cursor + 1,
                        ..pass
                    };
                    if middle.cursor < middle.genres.len() {
                        lemma_links_resolvable_frame(middle, next, middle.cursor as int);
                    } else {
                        lemma_links_resolvable_frame(middle, next, middle.genres.len() as int);
                    }
                },
                _ => {},
            }
            assert(pass_invariant(next));
        },
        SyncStage::WritingGames => {
            lemma_links_resolvable_frame(pass, next, pass.genres.len() as int);
            assert(pass_invariant(next));
        },
        SyncStage::WritingLinks => {
            lemma_links_resolvable_frame(pass, next, pass.genres.len() as int);
            assert(pass_invariant(next));
        },
        SyncStage::Committing => {
            assert(pass_invariant(next));
        },
        SyncStage::RollingBack => {
            assert(pass_invariant(next));
        },
        SyncStage::Finished => {
            assert(pass_invariant(next));
        },
    }
}

/// The pass after a run of events, one step for each.
pub open spec fn spec_run(pass: SyncPassView, events: Seq<EventView>) -> SyncPassView
    decreases events.len(),
{
    if events.len() == 0 {
        pass
    } else {
        spec_run(spec_step(pass, events.first()).0, events.drop_first())
    }
}

/// Whatever events come in whatever order, the invariant holds after them.
pub proof fn lemma_run_keeps_invariant(pass: SyncPassView, events: Seq<EventView>)
    requires
        pass_invariant(pass),
    ensures
        pass_invariant(spec_run(pass, events)),
    decreases events.len(),
{
    if events.len() > 0 {
        lemma_step_keeps_invariant(pass, events.first());
        lemma_run_keeps_invariant(spec_step(pass, events.first()).0, events.drop_first());
    }
}

/// A pass that has committed has written every game that it found new,
/// whatever became of the fetches: its report counts each of them, and none
/// besides.
pub proof fn lemma_committed_pass_wrote_every_new_game(
    addon: Seq<char>,
    has_scanner: bool,
    events: Seq<EventView>,
)
    ensures
        ({
            let end = spec_run(spec_start(addon, has_scanner).0, events);
            end.outcome matches Some(Ok(report)) ==> report.games_added == end.new_games.len() as usize
        }),
{
    lemma_start_establishes_invariant(addon, has_scanner);
    lemma_run_keeps_invariant(spec_start(addon, has_scanner).0, events);
}

/// A pass over games that the catalog holds finds nothing to do. Let the
/// pass wait for the catalog's answer, and let the answer name the library
/// id of every record of the scan that is the addon's own. Then the pass
/// finds no new game and asks for no metadata: it will add no game row.
pub proof fn lemma_pass_over_known_games(pass: SyncPassView, ids: Seq<Seq<char>>)
    requires
        pass.stage is FindingGames,
        forall|j: int|
            0 <= j < pass.scanned.len() && (#[trigger] pass.scanned[j]).library_type == pass.addon
                ==> ids.contains(pass.scanned[j].library_id),
    ensures
        spec_step(pass, EventView::ExistingGames(ids)).0.new_games.len() == 0,
        spec_step(pass, EventView::ExistingGames(ids)).1 == (CommandView::FetchMetadata {
            games: Seq::empty(),
            total: 0,
        }),
{
    let known = ids.to_set();
    let fresh = spec_new_games(pass.addon, pass.scanned, known);
    lemma_new_games(pass.addon, pass.scanned, known);
    if fresh.len() > 0 {
        let j = choose|j: int|
            0 <= j < pass.scanned.len() && fresh[0] == crate::models::spec_game_of_scan(
                #[trigger] pass.scanned[j],
            );
        assert(ids.contains(pass.scanned[j].library_id));
    }
    assert(fresh =~= Seq::empty());
    assert(spec_fetch_targets(pass.addon, fresh) =~= Seq::empty()) by {
        reveal(Seq::filter);
    }
}

/// Two games that carry the same genre id are linked to the same genre row:
/// among the links of each there is one to the row that stands for the id.
pub proof fn lemma_links_share_row(
    rows: Map<Seq<char>, i32>,
    first: i32,
    first_ids: Seq<Seq<char>>,
    second: i32,
    second_ids: Seq<Seq<char>>,
    id: Seq<char>,
)
    requires
        first_ids.contains(id),
        second_ids.contains(id),
    ensures
        spec_links(first, first_ids, rows).contains(GameGenre { game_id: first, genre_id: rows[id] }),
        spec_links(second, second_ids, rows).contains(
            GameGenre { game_id: second, genre_id: rows[id] },
        ),
{
    let a = choose|a: int| 0 <= a < first_ids.len() && first_ids[a] == id;
    assert(spec_links(first, first_ids, rows)[a] == GameGenre { game_id: first, genre_id: rows[id] });
    let b = choose|b: int| 0 <= b < second_ids.len() && second_ids[b] == id;
    assert(spec_links(second, second_ids, rows)[b] == GameGenre {
        game_id: second,
        genre_id: rows[id],
    });
}

/// The sync pass of one addon.
pub struct SyncPass {
    addon: String,
    has_scanner: bool,
    stage: SyncStage,
    scanned: Vec<ScannedGameLibraryMetadata>,
    new_games: Vec<GameData>,
    planned: Vec<PlannedGame>,
    genres: Vec<GenreData>,
    rows: StringTable<i32>,
    cursor: usize,
    outcome: Option<Result<SyncReport, SyncError>>,
}

impl View for SyncPass {
    type V = SyncPassView;

    closed spec fn view(&self) -> SyncPassView {
        SyncPassView {
            addon: self.addon@,
            has_scanner: self.has_scanner,
            stage: self.stage,
            scanned: self.scanned.deep_view(),
            new_games: self.new_games.deep_view(),
            planned: self.planned.deep_view(),
            genres: self.genres.deep_view(),
            rows: self.rows@,
            cursor: self.cursor as nat,
            outcome: self.outcome,
        }
    }
}

/// The table that a list of pairs stands for.
fn build_rows(pairs: &Vec<(String, i32)>) -> (rows: StringTable<i32>)
    ensures
        rows.well_formed(),
        rows@ == spec_genre_rows(pairs.deep_view()),
{
    let ghost all = pairs.deep_view();
    let mut rows: StringTable<i32> = StringTable::new();
    let mut i: usize = 0;
    assert(all.take(0) =~= Seq::empty());
    while i < pairs.len()
        invariant
            i <= pairs.len(),
            all == pairs.deep_view(),
            rows.well_formed(),
            rows@ == spec_genre_rows(all.take(i as int)),
        decreases pairs.len() - i,
    {
        proof {
            assert(all.take(i + 1).drop_last() =~= all.take(i as int));
            assert(all.take(i + 1).last() == (pairs[i as int].0@, pairs[i as int].1));
        }
        rows.insert(pairs[i].0.clone(), pairs[i].1);
        i += 1;
    }
    assert(all.take(i as int) =~= all);
    rows
}

impl SyncPass {
    /// The invariant of the pass holds and its table is well formed.
    pub closed spec fn well_formed(&self) -> bool {
        pass_invariant(self@) && self.rows.well_formed()
    }

    /// What a well-formed pass guarantees to its callers.
    pub proof fn lemma_invariant(self)
        requires
            self.well_formed(),
        ensures
            pass_invariant(self@),
    {
    }

    /// A pass for the addon `addon`, and its first command. `has_scanner`
    /// says whether the addon registered a metadata source.
    pub fn start(addon: String, has_scanner: bool) -> (started: (SyncPass, SyncCommand))
        ensures
            started.0.well_formed(),
            (started.0@, started.1@) == spec_start(addon@, has_scanner),
    {
        let pass = SyncPass {
            addon,
            has_scanner,
            stage: SyncStage::Scanning,
            scanned: Vec::new(),
            new_games: Vec::new(),
            planned: Vec::new(),
            genres: Vec::new(),
            rows: StringTable::new(),
            cursor: 0,
            outcome: None,
        };
        proof {
            assert(pass@.scanned =~= Seq::empty());
            assert(pass@.new_games =~= Seq::empty());
            assert(pass@.planned =~= Seq::empty());
            assert(pass@.genres =~= Seq::empty());
        }
        (pass, SyncCommand::Scan)
    }

    /// Where the pass stands.
    pub fn stage(&self) -> (stage: SyncStage)
        ensures
            stage == self@.stage,
    {
        self.stage
    }

    /// Whether the pass is over.
    pub fn is_finished(&self) -> (finished: bool)
        ensures
            finished == (self@.stage is Finished),
    {
        match self.stage {
            SyncStage::Finished => true,
            _ => false,
        }
    }

    /// How the pass ended, once it is over.
    pub fn outcome(&self) -> (outcome: Option<Result<SyncReport, SyncError>>)
        ensures
            outcome == self@.outcome,
    {
        self.outcome
    }

    fn fail(&mut self, error: SyncError) -> (command: SyncCommand)
        requires
            old(self).well_formed(),
        ensures
            final(self).well_formed(),
            (final(self)@, command@) == spec_fail(old(self)@, error),
    {
        self.stage = SyncStage::Finished;
        self.outcome = Some(Err(error));
        SyncCommand::Finish { outcome: Err(error) }
    }

    fn rollback(&mut self) -> (command: SyncCommand)
        requires
            old(self).well_formed(),
            old(self)@.stage is WritingGenres || old(self)@.stage is WritingGames || old(
                self,
            )@.stage is WritingLinks || old(self)@.stage is Committing,
        ensures
            final(self).well_formed(),
            (final(self)@, command@) == spec_rollback(old(self)@),
    {
        self.stage = SyncStage::RollingBack;
        SyncCommand::Rollback
    }

    fn next_game(&mut self) -> (command: SyncCommand)
        requires
            old(self).rows.well_formed(),
            pass_invariant(
                SyncPassView {
                    stage: if old(self)@.cursor < old(self)@.planned.len() {
                        SyncStage::WritingGames
                    } else {
                        SyncStage::Committing
                    },
                    ..old(self)@
                },
            ),
        ensures
            final(self).well_formed(),
            (final(self)@, command@) == spec_next_game(old(self)@),
    {
        if self.cursor < self.planned.len() {
            self.stage = SyncStage::WritingGames;
            let game = self.planned[self.cursor].game.clone();
            proof {
                assert(self@.planned[self.cursor as int] == self.planned[self.cursor as int]@);
            }
            SyncCommand::InsertGame { game }
        } else {
            self.stage = SyncStage::Committing;
            SyncCommand::Commit
        }
    }

    fn next_genre(&mut self) -> (command: SyncCommand)
        requires
            old(self).rows.well_formed(),
            old(self)@.cursor <= old(self)@.genres.len(),
            old(self)@.outcome is None,
            old(self)@.planned.len() == old(self)@.new_games.len(),
            links_resolvable(old(self)@, old(self)@.cursor as int),
            forall|k: int|
                0 <= k < old(self)@.planned.len() ==> (#[trigger] old(self)@.planned[k]).genre_ids
                    == spec_distinct(spec_ids_of(old(self)@.planned[k].game.genres)),
        ensures
            final(self).well_formed(),
            (final(self)@, command@) == spec_next_genre(old(self)@),
    {
        if self.cursor < self.genres.len() {
            self.stage = SyncStage::WritingGenres;
            let row = Genre::new_row(self.addon.as_str(), &self.genres[self.cursor]);
            proof {
                assert(self@.genres[self.cursor as int] == self.genres[self.cursor as int]@);
                assert(links_resolvable(self@, self@.cursor as int));
            }
            SyncCommand::InsertGenre { row }
        } else {
            let ghost before = self@;
            self.cursor = 0;
            proof {
                let middle = self@;
                assert(links_resolvable(middle, middle.genres.len() as int)) by {
                    assert forall|k: int, m: int|
                        0 <= k < middle.planned.len() && 0 <= m
                            < middle.planned[k].genre_ids.len() implies {
                        let id = #[trigger] middle.planned[k].genre_ids[m];
                        middle.rows.dom().contains(id) || exists|j: int|
                            middle.genres.len() <= j < middle.genres.len()
                                && #[trigger] middle.genres[j].library_id == id
                    } by {
                        let id = before.planned[k].genre_ids[m];
                        assert(before.rows.dom().contains(id) || exists|j: int|
                            before.cursor <= j < before.genres.len()
                                && #[trigger] before.genres[j].library_id == id);
                    }
                }
            }
            self.next_game()
        }
    }

    fn planning(&mut self, results: Vec<(GameLibraryRefOwned, GameMetadata)>) -> (command: SyncCommand)
        requires
            old(self).well_formed(),
            old(self)@.stage is Fetching,
        ensures
            final(self).well_formed(),
            (final(self)@, command@) == spec_planning(old(self)@, results.deep_view()),
    {
        let held = ingest(results);
        self.planned = plan_games(&self.new_games, &held);
        self.stage = SyncStage::FindingGenres;
        proof {
            lemma_planned_consistent(self@.new_games, held.deep_view());
        }
        SyncCommand::FindExistingGenres { addon: self.addon.clone(), ids: genre_ids(&self.planned) }
    }

    fn links_for(&self, game_row: i32) -> (links: Vec<GameGenre>)
        requires
            self.well_formed(),
            self@.stage is WritingGames,
        ensures
            links@ == spec_links(
                game_row,
                self@.planned[self@.cursor as int].genre_ids,
                self@.rows,
            ),
    {
        let ids = &self.planned[self.cursor].genre_ids;
        let ghost pass = self@;
        let ghost wanted = pass.planned[pass.cursor as int].genre_ids;
        assert(wanted == ids.deep_view()) by {
            assert(pass.planned[pass.cursor as int] == self.planned[self.cursor as int]@);
        }
        let mut links: Vec<GameGenre> = Vec::new();
        let mut m: usize = 0;
        while m < ids.len()
            invariant
                m <= ids.len(),
                self.well_formed(),
                self@ == pass,
                pass.stage is WritingGames,
                wanted == ids.deep_view(),
                wanted == pass.planned[pass.cursor as int].genre_ids,
                links.len() == m,
                forall|n: int|
                    0 <= n < m ==> links[n] == (GameGenre {
                        game_id: game_row,
                        genre_id: pass.rows[wanted[n]],
                    }),
            decreases ids.len() - m,
        {
            proof {
                assert(wanted[m as int] == ids[m as int]@);
                let id = pass.planned[pass.cursor as int].genre_ids[m as int];
                assert(pass.rows.dom().contains(id));
            }
            let genre_id: i32 = match self.rows.get(ids[m].as_str()) {
                Some(row) => *row,
                None => vstd::pervasive::unreached(),
            };
            links.push(GameGenre { game_id: game_row, genre_id });
            m += 1;
        }
        assert(links@ =~= spec_links(game_row, wanted, pass.rows));
        links
    }

    /// Takes what came of the last command and says what to do next.
    pub fn step(&mut self, event: SyncEvent) -> (command: SyncCommand)
        requires
            old(self).well_formed(),
        ensures
            final(self).well_formed(),
            (final(self)@, command@) == spec_step(old(self)@, event@),
    {
        let ghost before = self@;
        match self.stage {
            SyncStage::Scanning => match event {
                SyncEvent::Scanned(records) => {
                    let ids = candidate_ids(&records);
                    self.scanned = records;
                    self.stage = SyncStage::FindingGames;
                    SyncCommand::FindExistingGames { addon: self.addon.clone(), ids }
                },
                _ => self.fail(SyncError::AddonCapabilityFault),
            },
            SyncStage::FindingGames => match event {
                SyncEvent::ExistingGames(ids) => {
                    self.new_games = select_new_games(self.addon.as_str(), &self.scanned, &ids);
                    self.stage = SyncStage::Fetching;
                    let games = if self.has_scanner {
                        fetch_targets(self.addon.as_str(), &self.new_games)
                    } else {
                        Vec::new()
                    };
                    proof {
                        if !self.has_scanner {
                            assert(games.deep_view() =~= Seq::empty());
                        }
                    }
                    SyncCommand::FetchMetadata { games, total: self.new_games.len() }
                },
                _ => self.fail(SyncError::TransactionError),
            },
            SyncStage::Fetching => match event {
                SyncEvent::Metadata(results) => self.planning(results),
                _ => {
                    let nothing: Vec<(GameLibraryRefOwned, GameMetadata)> = Vec::new();
                    assert(nothing.deep_view() =~= Seq::empty());
                    self.planning(nothing)
                },
            },
            SyncStage::FindingGenres => match event {
                SyncEvent::ExistingGenres(pairs) => {
                    self.rows = build_rows(&pairs);
                    self.genres = genres_to_create(&self.planned, &self.rows);
                    self.cursor = 0;
                    self.stage = SyncStage::Opening;
                    proof {
                        lemma_links_resolvable_at_opening(self@);
                    }
                    SyncCommand::Begin
                },
                _ => self.fail(SyncError::TransactionError),
            },
            SyncStage::Opening => match event {
                SyncEvent::Began => self.next_genre(),
                _ => self.fail(SyncError::TransactionError),
            },
            SyncStage::WritingGenres => match event {
                SyncEvent::Inserted(id) => {
                    assert(self.cursor < self.genres.len()) by {
                        assert(before.cursor < before.genres.len());
                        assert(before.genres.len() == self.genres.len());
                    }
                    let key = self.genres[self.cursor].library_id.clone();
                    proof {
                        assert(before.genres[before.cursor as int] == self.genres[self.cursor as int]@);
                    }
                    self.rows.insert(key, id);
                    self.cursor = self.cursor + 1;
                    proof {
                        let middle = self@;
                        assert forall|k: int, m: int|
                            0 <= k < middle.planned.len() && 0 <= m
                                < middle.planned[k].genre_ids.len() implies {
                            let wanted = #[trigger] middle.planned[k].genre_ids[m];
                            middle.rows.dom().contains(wanted) || exists|j: int|
                                middle.cursor <= j < middle.genres.len()
                                    && #[trigger] middle.genres[j].library_id == wanted
                        } by {
                            let wanted = before.planned[k].genre_ids[m];
                            if !before.rows.dom().contains(wanted) {
                                let j = choose|j: int|
                                    before.cursor <= j < before.genres.len()
                                        && #[trigger] before.genres[j].library_id == wanted;
                                if j != before.cursor {
                                    assert(middle.genres[j].library_id == wanted);
                                }
                            }
                        }
                    }
                    self.next_genre()
                },
                _ => self.rollback(),
            },
            SyncStage::WritingGames => match event {
                SyncEvent::Inserted(id) => {
                    assert(self.cursor < self.planned.len()) by {
                        assert(before.cursor < before.planned.len());
                        assert(before.planned.len() == self.planned.len());
                    }
                    proof {
                        assert(before.planned[before.cursor as int] == self.planned[self.cursor as int]@);
                    }
                    if self.planned[self.cursor].genre_ids.len() > 0 {
                        let links = self.links_for(id);
                        self.stage = SyncStage::WritingLinks;
                        SyncCommand::InsertLinks { links }
                    } else {
                        self.cursor = self.cursor + 1;
                        self.next_game()
                    }
                },
                _ => self.rollback(),
            },
            SyncStage::WritingLinks => match event {
                SyncEvent::LinksInserted => {
                    assert(self.cursor < self.planned.len()) by {
                        assert(before.cursor < before.planned.len());
                        assert(before.planned.len() == self.planned.len());
                    }
                    self.cursor = self.cursor + 1;
                    self.next_game()
                },
                _ => self.rollback(),
            },
            SyncStage::Committing => match event {
                SyncEvent::Committed => {
                    let report = SyncReport {
                        games_added: self.planned.len(),
                        genres_added: self.genres.len(),
                    };
                    self.stage = SyncStage::Finished;
                    self.outcome = Some(Ok(report));
                    SyncCommand::Finish { outcome: Ok(report) }
                },
                _ => self.rollback(),
            },
            SyncStage::RollingBack => self.fail(SyncError::TransactionError),
            SyncStage::Finished => {
                let outcome = match self.outcome {
                    Some(outcome) => outcome,
                    None => Err(SyncError::TransactionError),
                };
                SyncCommand::Finish { outcome }
            },
        }
    }
}

} // verus!
