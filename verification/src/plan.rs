//! What a sync pass decides between its calls to the addon and to the
//! catalog: which scanned games are new, which games to fetch metadata for,
//! which genres to create and what to write for each game.
use crate::models::{
    genres_normalized, spec_extend, spec_game_of_scan, spec_normalized_metadata, GameData,
    GameDataView, GameLibraryRef, GameLibraryRefOwned, GameMetadata, GameMetadataView, GameRefView,
    GenreData, GenreView, ScannedGameLibraryMetadata, ScannedGameView,
};
use crate::table::StringTable;
use crate::text::{contains_str, distinct, spec_distinct, str_eq};
use vstd::prelude::*;

verus! {

/// The library ids of a scan, in its order. The catalog is asked which of
/// them it holds.
pub open spec fn spec_candidate_ids(scanned: Seq<ScannedGameView>) -> Seq<Seq<char>> {
    scanned.map_values(|record: ScannedGameView| record.library_id)
}

/// The library ids of a scan, in its order.
pub fn candidate_ids(scanned: &Vec<ScannedGameLibraryMetadata>) -> (ids: Vec<String>)
    ensures
        ids.deep_view() == spec_candidate_ids(scanned.deep_view()),
{
    let mut ids: Vec<String> = Vec::new();
    let mut i: usize = 0;
    while i < scanned.len()
        invariant
            i <= scanned.len(),
            ids.len() == i,
            forall|j: int| 0 <= j < i ==> ids[j]@ == scanned[j]@.library_id,
        decreases scanned.len() - i,
    {
        ids.push(scanned[i].library_id.clone());
        i += 1;
    }
    assert(ids.deep_view() =~= spec_candidate_ids(scanned.deep_view()));
    ids
}

/// Whether a pass of `addon` takes a record for new after it has kept the
/// records with the ids `kept`: the record is the addon's own, the catalog
/// does not hold its library id, and no record kept before it carries that
/// id.
pub open spec fn spec_is_new(
    addon: Seq<char>,
    existing: Set<Seq<char>>,
    kept: Seq<Seq<char>>,
    record: ScannedGameView,
) -> bool {
    record.library_type == addon && !existing.contains(record.library_id) && !kept.contains(
        record.library_id,
    )
}

/// The records of a scan that a pass of `addon` takes for new, in the order
/// of the scan. A record that names another library is none of this pass's
/// business and is left out: the catalog is asked about the addon's own
/// games only. Of several records with one library id the first is kept.
pub open spec fn spec_new_records(
    addon: Seq<char>,
    scanned: Seq<ScannedGameView>,
    existing: Set<Seq<char>>,
) -> Seq<ScannedGameView>
    decreases scanned.len(),
{
    if scanned.len() == 0 {
        Seq::empty()
    } else {
        let front = spec_new_records(addon, scanned.drop_last(), existing);
        if spec_is_new(addon, existing, spec_candidate_ids(front), scanned.last()) {
            front.push(scanned.last())
        } else {
            front
        }
    }
}

/// The new games of a scan: the difference, as a set of natural keys, between
/// what the addon reports as its own and what the catalog holds, each as the
/// catalog game that its record describes, in the order of the scan.
pub open spec fn spec_new_games(
    addon: Seq<char>,
    scanned: Seq<ScannedGameView>,
    existing: Set<Seq<char>>,
) -> Seq<GameDataView> {
    spec_new_records(addon, scanned, existing).map_values(
        |record: ScannedGameView| spec_game_of_scan(record),
    )
}

/// The new games of a scan of `addon`, given the library ids in `existing`
/// that the catalog holds for the addon.
pub fn select_new_games(
    addon: &str,
    scanned: &Vec<ScannedGameLibraryMetadata>,
    existing: &Vec<String>,
) -> (games: Vec<GameData>)
    ensures
        games.deep_view() == spec_new_games(addon@, scanned.deep_view(), existing.deep_view().to_set()),
{
    let ghost known = existing.deep_view().to_set();
    let ghost records = scanned.deep_view();
    let mut games: Vec<GameData> = Vec::new();
    let mut kept: Vec<String> = Vec::new();
    let mut i: usize = 0;
    proof {
        assert(records.take(0) =~= Seq::empty());
        assert(games.deep_view() =~= spec_new_games(addon@, records.take(0), known));
        assert(kept.deep_view() =~= spec_candidate_ids(spec_new_records(addon@, records.take(0), known)));
    }
    while i < scanned.len()
        invariant
            i <= scanned.len(),
            records == scanned.deep_view(),
            known == existing.deep_view().to_set(),
            games.deep_view() == spec_new_games(addon@, records.take(i as int), known),
            kept.deep_view() == spec_candidate_ids(
                spec_new_records(addon@, records.take(i as int), known),
            ),
        decreases scanned.len() - i,
    {
        let ghost before = games.deep_view();
        let ghost ids_before = kept.deep_view();
        let ghost front = spec_new_records(addon@, records.take(i as int), known);
        proof {
            assert(records.take(i + 1).drop_last() =~= records.take(i as int));
            assert(records.take(i + 1).last() == records[i as int]);
            assert(records[i as int] == scanned[i as int]@);
        }
        let id = scanned[i].library_id.as_str();
        if str_eq(scanned[i].library_type.as_str(), addon) && !contains_str(existing, id)
            && !contains_str(&kept, id) {
            kept.push(scanned[i].library_id.clone());
            games.push(scanned[i].clone().into_game_data());
            proof {
                assert(kept.deep_view() =~= ids_before.push(records[i as int].library_id));
                assert(games.deep_view() =~= before.push(spec_game_of_scan(records[i as int])));
                assert(spec_candidate_ids(front.push(records[i as int])) =~= ids_before.push(
                    records[i as int].library_id,
                ));
                assert(games.deep_view() =~= spec_new_games(addon@, records.take(i + 1), known));
            }
        }
        i += 1;
    }
    assert(records.take(i as int) =~= records);
    games
}

/// The library ids of a list of games, in order.
pub open spec fn spec_game_ids(games: Seq<GameDataView>) -> Seq<Seq<char>> {
    games.map_values(|game: GameDataView| game.library_id)
}

/// What holds of the new games of a scan, whatever the scan lists: each is
/// the addon's own, comes from a record of the scan and carries a library id
/// that the catalog does not hold; and every record of the scan that is the
/// addon's own and unknown to the catalog has its library id among them.
pub proof fn lemma_new_games(addon: Seq<char>, scanned: Seq<ScannedGameView>, existing: Set<Seq<char>>)
    ensures
        spec_game_ids(spec_new_games(addon, scanned, existing)) == spec_candidate_ids(
            spec_new_records(addon, scanned, existing),
        ),
        forall|i: int|
            0 <= i < spec_new_games(addon, scanned, existing).len() ==> {
                let game = #[trigger] spec_new_games(addon, scanned, existing)[i];
                &&& game.library_type == addon
                &&& !existing.contains(game.library_id)
                &&& exists|j: int| 0 <= j < scanned.len() && game == spec_game_of_scan(#[trigger] scanned[j])
            },
        forall|j: int|
            0 <= j < scanned.len() && (#[trigger] scanned[j]).library_type == addon && !existing.contains(
                scanned[j].library_id,
            ) ==> spec_game_ids(spec_new_games(addon, scanned, existing)).contains(scanned[j].library_id),
    decreases scanned.len(),
{
    let kept = spec_new_records(addon, scanned, existing);
    let fresh = spec_new_games(addon, scanned, existing);
    let ids = spec_game_ids(fresh);
    assert(ids =~= spec_candidate_ids(kept));
    if scanned.len() > 0 {
        let front = scanned.drop_last();
        let last = scanned.last();
        let kept_before = spec_new_records(addon, front, existing);
        let before = spec_new_games(addon, front, existing);
        lemma_new_games(addon, front, existing);
        let taken = spec_is_new(addon, existing, spec_candidate_ids(kept_before), last);
        assert forall|i: int| 0 <= i < fresh.len() implies {
            let game = #[trigger] fresh[i];
            &&& game.library_type == addon
            &&& !existing.contains(game.library_id)
            &&& exists|j: int| 0 <= j < scanned.len() && game == spec_game_of_scan(#[trigger] scanned[j])
        } by {
            if i < before.len() {
                assert(fresh[i] == before[i]);
                let j = choose|j: int|
                    0 <= j < front.len() && before[i] == spec_game_of_scan(#[trigger] front[j]);
                assert(front[j] == scanned[j]);
            } else {
                assert(fresh[i] == spec_game_of_scan(scanned[scanned.len() - 1]));
            }
        }
        assert forall|j: int|
            0 <= j < scanned.len() && (#[trigger] scanned[j]).library_type == addon && !existing.contains(
                scanned[j].library_id,
            ) implies ids.contains(scanned[j].library_id) by {
            if j < front.len() {
                assert(front[j] == scanned[j]);
                let at = choose|at: int|
                    0 <= at < before.len() && spec_game_ids(before)[at] == scanned[j].library_id;
                assert(ids[at] == scanned[j].library_id);
            } else if taken {
                assert(ids[ids.len() - 1] == last.library_id);
            } else {
                let at = choose|at: int|
                    0 <= at < kept_before.len() && spec_candidate_ids(kept_before)[at] == last.library_id;
                assert(ids[at] == last.library_id);
            }
        }
    }
}

/// A pass never writes a natural key twice. Whatever the scan lists, and
/// however often it lists a game, the new games carry library ids that
/// differ from one another and from every id that the catalog holds:
/// inserting them leaves each natural key of the addon in the catalog once.
pub proof fn lemma_new_games_keep_keys_unique(
    addon: Seq<char>,
    scanned: Seq<ScannedGameView>,
    existing: Set<Seq<char>>,
)
    ensures
        spec_game_ids(spec_new_games(addon, scanned, existing)).no_duplicates(),
        forall|i: int|
            0 <= i < spec_new_games(addon, scanned, existing).len() ==> !existing.contains(
                #[trigger] spec_game_ids(spec_new_games(addon, scanned, existing))[i],
            ),
    decreases scanned.len(),
{
    let fresh = spec_new_games(addon, scanned, existing);
    let ids = spec_game_ids(fresh);
    lemma_new_games(addon, scanned, existing);
    assert forall|i: int| 0 <= i < fresh.len() implies !existing.contains(#[trigger] ids[i]) by {
        assert(ids[i] == fresh[i].library_id);
    }
    if scanned.len() > 0 {
        let front = scanned.drop_last();
        let before = spec_new_games(addon, front, existing);
        lemma_new_games_keep_keys_unique(addon, front, existing);
        lemma_new_games(addon, front, existing);
        if fresh.len() > before.len() {
            assert(ids =~= spec_game_ids(before).push(scanned.last().library_id));
            assert forall|a: int, b: int|
                0 <= a < ids.len() && 0 <= b < ids.len() && a != b implies ids[a] != ids[b] by {
                if a < before.len() && b < before.len() {
                    assert(spec_game_ids(before)[a] != spec_game_ids(before)[b]);
                } else if a < before.len() {
                    assert(spec_game_ids(before)[a] == ids[a]);
                } else {
                    assert(spec_game_ids(before)[b] == ids[b]);
                }
            }
        } else {
            assert(ids =~= spec_game_ids(before));
        }
    }
}

/// A sync pass is idempotent. Let a first pass of `addon` find the new games
/// of a scan against the library ids `existing`, and let the catalog, asked
/// again, answer with `after`: at least the ids of those new games and, of
/// the addon's own records, those that it named before. Then a second pass
/// over the same scan finds no new game, and so adds no row.
pub proof fn lemma_sync_is_idempotent(
    addon: Seq<char>,
    scanned: Seq<ScannedGameView>,
    existing: Set<Seq<char>>,
    after: Set<Seq<char>>,
)
    requires
        forall|j: int|
            0 <= j < scanned.len() && (#[trigger] scanned[j]).library_type == addon && existing.contains(
                scanned[j].library_id,
            ) ==> after.contains(scanned[j].library_id),
        forall|i: int|
            0 <= i < spec_new_games(addon, scanned, existing).len() ==> after.contains(
                #[trigger] spec_new_games(addon, scanned, existing)[i].library_id,
            ),
    ensures
        spec_new_games(addon, scanned, after).len() == 0,
{
    let first = spec_new_games(addon, scanned, existing);
    lemma_new_games(addon, scanned, existing);
    lemma_new_games(addon, scanned, after);
    if spec_new_games(addon, scanned, after).len() > 0 {
        let game = spec_new_games(addon, scanned, after)[0];
        let j = choose|j: int| 0 <= j < scanned.len() && game == spec_game_of_scan(#[trigger] scanned[j]);
        if !existing.contains(scanned[j].library_id) {
            let at = choose|at: int|
                0 <= at < first.len() && spec_game_ids(first)[at] == scanned[j].library_id;
            assert(first[at].library_id == scanned[j].library_id);
        }
    }
}

/// The reference by which an addon knows a catalog game.
pub open spec fn spec_ref_of(game: GameDataView) -> GameRefView {
    GameRefView { name: game.name, library_type: game.library_type, library_id: game.library_id }
}

/// The test that a game passes when it belongs to the addon `addon`.
pub open spec fn belongs_to(addon: Seq<char>) -> spec_fn(GameDataView) -> bool {
    |game: GameDataView| game.library_type == addon
}

/// The games to fetch metadata for: the new games that belong to the addon
/// whose metadata source is asked, in order. A game of another library is
/// none of that source's business.
pub open spec fn spec_fetch_targets(addon: Seq<char>, new_games: Seq<GameDataView>) -> Seq<GameRefView> {
    new_games.filter(belongs_to(addon)).map_values(|game: GameDataView| spec_ref_of(game))
}

/// The games to fetch metadata for: the new games that belong to `addon`.
pub fn fetch_targets(addon: &str, new_games: &Vec<GameData>) -> (targets: Vec<GameLibraryRefOwned>)
    ensures
        targets.deep_view() == spec_fetch_targets(addon@, new_games.deep_view()),
{
    let ghost games = new_games.deep_view();
    let mut targets: Vec<GameLibraryRefOwned> = Vec::new();
    let mut i: usize = 0;
    proof {
        assert(games.take(0) =~= Seq::empty());
        assert(games.take(0).filter(belongs_to(addon@)) =~= Seq::empty()) by {
            reveal(Seq::filter);
        }
        assert(targets.deep_view() =~= spec_fetch_targets(addon@, games.take(0)));
    }
    while i < new_games.len()
        invariant
            i <= new_games.len(),
            games == new_games.deep_view(),
            targets.deep_view() == spec_fetch_targets(addon@, games.take(i as int)),
        decreases new_games.len() - i,
    {
        let ghost before = targets.deep_view();
        proof {
            assert(games.take(i + 1) =~= games.take(i as int).push(games[i as int]));
            games.take(i as int).lemma_filter_push(games[i as int], belongs_to(addon@));
            assert(games[i as int] == new_games[i as int]@);
        }
        if str_eq(new_games[i].library_type.as_str(), addon) {
            targets.push(new_games[i].get_owned_ref());
            assert(targets.deep_view() =~= before.push(spec_ref_of(games[i as int])));
            assert(targets.deep_view() =~= spec_fetch_targets(addon@, games.take(i + 1)));
        } else {
            assert(targets.deep_view() =~= spec_fetch_targets(addon@, games.take(i + 1)));
        }
        i += 1;
    }
    assert(games.take(i as int) =~= games);
    targets
}

/// Fetched metadata as the core holds it: every genre id brought into
/// canonical form where the results come in.
pub open spec fn spec_ingest(results: Seq<(GameRefView, GameMetadataView)>) -> Seq<
    (GameRefView, GameMetadataView),
> {
    results.map_values(
        |entry: (GameRefView, GameMetadataView)| (entry.0, spec_normalized_metadata(entry.1)),
    )
}

/// Every genre id in the results is canonical.
pub open spec fn results_normalized(results: Seq<(GameRefView, GameMetadataView)>) -> bool {
    forall|i: int| 0 <= i < results.len() ==> genres_normalized(#[trigger] results[i].1.genres)
}

/// Takes the results of a fetch into the core. This is the one place where
/// genre ids are normalised; nothing after it trims again.
pub fn ingest(results: Vec<(GameLibraryRefOwned, GameMetadata)>) -> (held: Vec<
    (GameLibraryRefOwned, GameMetadata),
>)
    ensures
        held.deep_view() == spec_ingest(results.deep_view()),
        results_normalized(held.deep_view()),
{
    let mut held: Vec<(GameLibraryRefOwned, GameMetadata)> = Vec::new();
    let mut i: usize = 0;
    while i < results.len()
        invariant
            i <= results.len(),
            held.len() == i,
            forall|j: int|
                0 <= j < i ==> held.deep_view()[j] == (
                    results.deep_view()[j].0,
                    spec_normalized_metadata(results.deep_view()[j].1),
                ),
            forall|j: int| 0 <= j < i ==> genres_normalized(#[trigger] held.deep_view()[j].1.genres),
        decreases results.len() - i,
    {
        let ghost before = held.deep_view();
        let game = results[i].0.clone();
        let metadata = results[i].1.clone().normalized();
        held.push((game, metadata));
        proof {
            assert(held.deep_view() =~= before.push((game@, metadata@)));
            assert(results.deep_view()[i as int] == (results[i as int].0@, results[i as int].1@));
        }
        i += 1;
    }
    assert(held.deep_view() =~= spec_ingest(results.deep_view()));
    held
}

/// The metadata that the results hold for a game: that of the first entry
/// made out for the game.
pub open spec fn spec_metadata_for(results: Seq<(GameRefView, GameMetadataView)>, game: GameRefView)
    -> Option<GameMetadataView>
    decreases results.len(),
{
    if results.len() == 0 {
        None
    } else if results.first().0 == game {
        Some(results.first().1)
    } else {
        spec_metadata_for(results.drop_first(), game)
    }
}

proof fn lemma_metadata_for_skip(
    results: Seq<(GameRefView, GameMetadataView)>,
    game: GameRefView,
    n: int,
)
    requires
        0 <= n <= results.len(),
        forall|j: int| 0 <= j < n ==> (#[trigger] results[j]).0 != game,
    ensures
        spec_metadata_for(results, game) == spec_metadata_for(results.skip(n), game),
    decreases n,
{
    if n == 0 {
        assert(results.skip(0) =~= results);
    } else {
        assert(results[0].0 != game);
        let rest = results.drop_first();
        assert forall|j: int| 0 <= j < n - 1 implies (#[trigger] rest[j]).0 != game by {
            assert(rest[j] == results[j + 1]);
        }
        lemma_metadata_for_skip(rest, game, n - 1);
        assert(rest.skip(n - 1) =~= results.skip(n));
    }
}

/// The metadata that the results hold for a game.
pub fn find_metadata<'a>(
    results: &'a Vec<(GameLibraryRefOwned, GameMetadata)>,
    game: &GameLibraryRef<'_>,
) -> (found: Option<&'a GameMetadata>)
    ensures
        found.deep_view() == spec_metadata_for(results.deep_view(), game@),
{
    let ghost entries = results.deep_view();
    let mut i: usize = 0;
    while i < results.len()
        invariant
            i <= results.len(),
            entries == results.deep_view(),
            forall|j: int| 0 <= j < i ==> (#[trigger] entries[j]).0 != game@,
        decreases results.len() - i,
    {
        proof {
            assert(entries[i as int] == (results[i as int].0@, results[i as int].1@));
        }
        if results[i].0.as_ref().same_as(game) {
            proof {
                lemma_metadata_for_skip(entries, game@, i as int);
                assert(entries.skip(i as int).first() == entries[i as int]);
            }
            return Some(&results[i].1);
        }
        i += 1;
    }
    proof {
        lemma_metadata_for_skip(entries, game@, i as int);
        assert(entries.skip(i as int) =~= Seq::empty());
    }
    None
}

/// The source's ids of a list of genres, in order.
pub open spec fn spec_ids_of(genres: Seq<GenreView>) -> Seq<Seq<char>> {
    genres.map_values(|genre: GenreView| genre.library_id)
}

/// The source's ids of a list of genres, in order.
pub fn ids_of(genres: &Vec<GenreData>) -> (ids: Vec<String>)
    ensures
        ids.deep_view() == spec_ids_of(genres.deep_view()),
{
    let mut ids: Vec<String> = Vec::new();
    let mut i: usize = 0;
    while i < genres.len()
        invariant
            i <= genres.len(),
            ids.len() == i,
            forall|j: int| 0 <= j < i ==> ids[j]@ == genres[j]@.library_id,
        decreases genres.len() - i,
    {
        ids.push(genres[i].library_id.clone());
        i += 1;
    }
    assert(ids.deep_view() =~= spec_ids_of(genres.deep_view()));
    ids
}

/// The mathematical value of a planned game.
pub struct PlannedGameView {
    pub game: GameDataView,
    pub genre_ids: Seq<Seq<char>>,
}

/// One game that a pass is going to write: the row, enriched as far as
/// metadata came, and the ids of the genres to link it to, each once.
#[derive(Debug)]
pub struct PlannedGame {
    pub game: GameData,
    pub genre_ids: Vec<String>,
}

impl View for PlannedGame {
    type V = PlannedGameView;

    open spec fn view(&self) -> PlannedGameView {
        PlannedGameView { game: self.game@, genre_ids: self.genre_ids.deep_view() }
    }
}

impl DeepView for PlannedGame {
    type V = PlannedGameView;

    open spec fn deep_view(&self) -> PlannedGameView {
        self@
    }
}

/// What a pass writes for a new game. Where the results hold metadata for
/// the game it is merged in; where they hold none, because the fetch failed
/// or none was made, the game goes in as it was scanned.
pub open spec fn spec_planned_game(
    game: GameDataView,
    results: Seq<(GameRefView, GameMetadataView)>,
) -> PlannedGameView {
    let merged = match spec_metadata_for(results, spec_ref_of(game)) {
        Some(metadata) => spec_extend(game, metadata),
        None => game,
    };
    PlannedGameView { game: merged, genre_ids: spec_distinct(spec_ids_of(merged.genres)) }
}

/// What a pass writes for its new games, in their order.
pub open spec fn spec_planned_games(
    new_games: Seq<GameDataView>,
    results: Seq<(GameRefView, GameMetadataView)>,
) -> Seq<PlannedGameView> {
    new_games.map_values(|game: GameDataView| spec_planned_game(game, results))
}

/// Plans the write of every new game: one planned game for each, in order,
/// whatever became of its fetch.
pub fn plan_games(new_games: &Vec<GameData>, results: &Vec<(GameLibraryRefOwned, GameMetadata)>) -> (planned:
    Vec<PlannedGame>)
    ensures
        planned.deep_view() == spec_planned_games(new_games.deep_view(), results.deep_view()),
        planned.len() == new_games.len(),
{
    let mut planned: Vec<PlannedGame> = Vec::new();
    let mut i: usize = 0;
    while i < new_games.len()
        invariant
            i <= new_games.len(),
            planned.len() == i,
            forall|j: int|
                0 <= j < i ==> planned[j]@ == spec_planned_game(new_games[j]@, results.deep_view()),
        decreases new_games.len() - i,
    {
        let mut game = new_games[i].clone();
        match find_metadata(results, &game.get_ref()) {
            Some(metadata) => {
                game.extend(metadata.clone());
            },
            None => {},
        }
        let genre_ids = distinct(&ids_of(&game.genres));
        planned.push(PlannedGame { game, genre_ids });
        i += 1;
    }
    assert(planned.deep_view() =~= spec_planned_games(new_games.deep_view(), results.deep_view()));
    planned
}

/// Every new game is planned, under its own natural key and name, whether or
/// not metadata came for it: a fetch that failed costs a game its
/// enrichment, never its row.
pub proof fn lemma_every_new_game_is_planned(
    new_games: Seq<GameDataView>,
    results: Seq<(GameRefView, GameMetadataView)>,
    i: int,
)
    requires
        0 <= i < new_games.len(),
    ensures
        spec_planned_games(new_games, results).len() == new_games.len(),
        spec_ref_of(spec_planned_games(new_games, results)[i].game) == spec_ref_of(new_games[i]),
        spec_metadata_for(results, spec_ref_of(new_games[i])).is_none() ==> spec_planned_games(
            new_games,
            results,
        )[i].game == new_games[i],
{
}

/// Every genre that the planned games refer to, in the order of the games
/// and, within a game, of its list.
pub open spec fn spec_genres_of(planned: Seq<PlannedGameView>) -> Seq<GenreView>
    decreases planned.len(),
{
    if planned.len() == 0 {
        Seq::empty()
    } else {
        spec_genres_of(planned.drop_last()) + planned.last().game.genres
    }
}

/// The genre ids that the catalog is asked about: every id that a planned
/// game refers to, each once.
pub open spec fn spec_genre_ids(planned: Seq<PlannedGameView>) -> Seq<Seq<char>> {
    spec_distinct(spec_ids_of(spec_genres_of(planned)))
}

/// The genre ids that the catalog is asked about.
pub fn genre_ids(planned: &Vec<PlannedGame>) -> (ids: Vec<String>)
    ensures
        ids.deep_view() == spec_genre_ids(planned.deep_view()),
        ids.deep_view().no_duplicates(),
{
    let ghost games = planned.deep_view();
    let mut all: Vec<String> = Vec::new();
    let mut i: usize = 0;
    proof {
        assert(games.take(0) =~= Seq::empty());
        assert(all.deep_view() =~= spec_ids_of(spec_genres_of(games.take(0))));
    }
    while i < planned.len()
        invariant
            i <= planned.len(),
            games == planned.deep_view(),
            all.deep_view() == spec_ids_of(spec_genres_of(games.take(i as int))),
        decreases planned.len() - i,
    {
        let genres = &planned[i].game.genres;
        let ghost done = spec_genres_of(games.take(i as int));
        let ghost listed = genres.deep_view();
        let mut j: usize = 0;
        proof {
            assert(done + listed.take(0) =~= done);
        }
        while j < genres.len()
            invariant
                j <= genres.len(),
                listed == genres.deep_view(),
                all.deep_view() == spec_ids_of(done + listed.take(j as int)),
            decreases genres.len() - j,
        {
            let ghost before = all.deep_view();
            all.push(genres[j].library_id.clone());
            proof {
                assert(listed[j as int] == genres[j as int]@);
                assert(all.deep_view() =~= before.push(listed[j as int].library_id));
                assert(done + listed.take(j + 1) =~= (done + listed.take(j as int)).push(
                    listed[j as int],
                ));
                assert(all.deep_view() =~= spec_ids_of(done + listed.take(j + 1)));
            }
            j += 1;
        }
        proof {
            assert(listed.take(j as int) =~= listed);
            assert(games.take(i + 1).drop_last() =~= games.take(i as int));
            assert(games.take(i + 1).last() == games[i as int]);
            assert(games[i as int] == planned[i as int]@);
        }
        i += 1;
    }
    proof {
        assert(games.take(i as int) =~= games);
    }
    distinct(&all)
}

/// Whether a list of genres holds one with this id.
pub fn has_genre_id(genres: &Vec<GenreData>, id: &str) -> (found: bool)
    ensures
        found == spec_ids_of(genres.deep_view()).contains(id@),
{
    let ghost ids = spec_ids_of(genres.deep_view());
    let mut i: usize = 0;
    while i < genres.len()
        invariant
            i <= genres.len(),
            ids == spec_ids_of(genres.deep_view()),
            forall|j: int| 0 <= j < i ==> ids[j] != id@,
        decreases genres.len() - i,
    {
        assert(ids[i as int] == genres[i as int]@.library_id);
        if str_eq(genres[i].library_id.as_str(), id) {
            return true;
        }
        i += 1;
    }
    false
}

/// The genres that a pass creates: of the genres referred to, in order, each
/// one whose id the catalog does not know and that no earlier one of the
/// batch carries.
pub open spec fn spec_genres_to_create(genres: Seq<GenreView>, known: Set<Seq<char>>) -> Seq<GenreView>
    decreases genres.len(),
{
    if genres.len() == 0 {
        Seq::empty()
    } else {
        let front = spec_genres_to_create(genres.drop_last(), known);
        let last = genres.last();
        if known.contains(last.library_id) || spec_ids_of(front).contains(last.library_id) {
            front
        } else {
            front.push(last)
        }
    }
}

/// The genres that a pass creates for its planned games, given the genre ids
/// that the catalog already holds for the addon.
pub fn genres_to_create(planned: &Vec<PlannedGame>, known: &StringTable<i32>) -> (created: Vec<
    GenreData,
>)
    requires
        known.well_formed(),
    ensures
        created.deep_view() == spec_genres_to_create(
            spec_genres_of(planned.deep_view()),
            known@.dom(),
        ),
{
    let ghost games = planned.deep_view();
    let ghost dom = known@.dom();
    let mut created: Vec<GenreData> = Vec::new();
    let mut i: usize = 0;
    proof {
        assert(games.take(0) =~= Seq::empty());
        assert(created.deep_view() =~= spec_genres_to_create(spec_genres_of(games.take(0)), dom));
    }
    while i < planned.len()
        invariant
            i <= planned.len(),
            known.well_formed(),
            games == planned.deep_view(),
            dom == known@.dom(),
            created.deep_view() == spec_genres_to_create(spec_genres_of(games.take(i as int)), dom),
        decreases planned.len() - i,
    {
        let genres = &planned[i].game.genres;
        let ghost done = spec_genres_of(games.take(i as int));
        let ghost listed = genres.deep_view();
        let mut j: usize = 0;
        proof {
            assert(done + listed.take(0) =~= done);
        }
        while j < genres.len()
            invariant
                j <= genres.len(),
                known.well_formed(),
                dom == known@.dom(),
                listed == genres.deep_view(),
                created.deep_view() == spec_genres_to_create(done + listed.take(j as int), dom),
            decreases genres.len() - j,
        {
            let ghost before = created.deep_view();
            proof {
                let upto = done + listed.take(j + 1);
                assert(upto.drop_last() =~= done + listed.take(j as int));
                assert(upto.last() == listed[j as int]);
                assert(listed[j as int] == genres[j as int]@);
            }
            let id = genres[j].library_id.as_str();
            if !known.contains_key(id) && !has_genre_id(&created, id) {
                created.push(genres[j].clone());
                assert(created.deep_view() =~= before.push(listed[j as int]));
            }
            j += 1;
        }
        proof {
            assert(listed.take(j as int) =~= listed);
            assert(games.take(i + 1).drop_last() =~= games.take(i as int));
            assert(games.take(i + 1).last() == games[i as int]);
            assert(games[i as int] == planned[i as int]@);
        }
        i += 1;
    }
    proof {
        assert(games.take(i as int) =~= games);
    }
    created
}

/// What holds of the genres to create: no two carry the same id, none is
/// known to the catalog, each is one of the genres referred to, and every
/// genre referred to is either known or among them.
pub proof fn lemma_genres_to_create(genres: Seq<GenreView>, known: Set<Seq<char>>)
    ensures
        spec_ids_of(spec_genres_to_create(genres, known)).no_duplicates(),
        forall|k: int|
            0 <= k < spec_genres_to_create(genres, known).len() ==> !known.contains(
                (#[trigger] spec_genres_to_create(genres, known)[k]).library_id,
            ) && genres.contains(spec_genres_to_create(genres, known)[k]),
        forall|i: int|
            0 <= i < genres.len() ==> known.contains((#[trigger] genres[i]).library_id) || spec_ids_of(
                spec_genres_to_create(genres, known),
            ).contains(genres[i].library_id),
    decreases genres.len(),
{
    let created = spec_genres_to_create(genres, known);
    if genres.len() > 0 {
        let front_genres = genres.drop_last();
        let front = spec_genres_to_create(front_genres, known);
        let last = genres.last();
        lemma_genres_to_create(front_genres, known);
        assert forall|k: int| 0 <= k < created.len() implies !known.contains(
            (#[trigger] created[k]).library_id,
        ) && genres.contains(created[k]) by {
            if k < front.len() {
                assert(created[k] == front[k]);
                assert(front_genres.contains(front[k]));
                let at = choose|at: int| 0 <= at < front_genres.len() && front_genres[at] == front[k];
                assert(genres[at] == created[k]);
            } else {
                assert(genres[genres.len() - 1] == created[k]);
            }
        }
        assert forall|i: int| 0 <= i < genres.len() implies known.contains(
            (#[trigger] genres[i]).library_id,
        ) || spec_ids_of(created).contains(genres[i].library_id) by {
            if i < front_genres.len() {
                assert(front_genres[i] == genres[i]);
                if !known.contains(genres[i].library_id) {
                    let at = choose|at: int|
                        0 <= at < spec_ids_of(front).len() && spec_ids_of(front)[at]
                            == genres[i].library_id;
                    assert(spec_ids_of(created)[at] == genres[i].library_id);
                }
            } else {
                if !known.contains(last.library_id) && !spec_ids_of(front).contains(last.library_id) {
                    assert(spec_ids_of(created)[created.len() - 1] == last.library_id);
                }
            }
        }
        assert(spec_ids_of(created).no_duplicates()) by {
            if created.len() > front.len() {
                assert forall|a: int, b: int|
                    0 <= a < created.len() && 0 <= b < created.len() && a != b implies spec_ids_of(
                    created,
                )[a] != spec_ids_of(created)[b] by {
                    if a < front.len() && b < front.len() {
                        assert(spec_ids_of(front)[a] != spec_ids_of(front)[b]);
                    } else if a < front.len() {
                        assert(spec_ids_of(front)[a] == spec_ids_of(created)[a]);
                    } else {
                        assert(spec_ids_of(front)[b] == spec_ids_of(created)[b]);
                    }
                }
            }
        }
    }
}

/// A genre of a planned game is one of the genres that the batch refers to.
pub proof fn lemma_genres_of_contains(planned: Seq<PlannedGameView>, i: int, j: int)
    requires
        0 <= i < planned.len(),
        0 <= j < planned[i].game.genres.len(),
    ensures
        spec_genres_of(planned).contains(planned[i].game.genres[j]),
    decreases planned.len(),
{
    let all = spec_genres_of(planned);
    let front = spec_genres_of(planned.drop_last());
    if i == planned.len() - 1 {
        assert(all[front.len() + j] == planned[i].game.genres[j]);
    } else {
        lemma_genres_of_contains(planned.drop_last(), i, j);
        let at = choose|at: int| 0 <= at < front.len() && front[at] == planned[i].game.genres[j];
        assert(all[at] == planned[i].game.genres[j]);
    }
}

/// Genres are deduplicated. Where two games of a batch refer to a genre by
/// the same id and the catalog does not know that id, the pass creates
/// exactly one genre with it.
pub proof fn lemma_shared_genre_is_created_once(
    planned: Seq<PlannedGameView>,
    known: Set<Seq<char>>,
    a: int,
    b: int,
    id: Seq<char>,
)
    requires
        0 <= a < planned.len(),
        0 <= b < planned.len(),
        spec_ids_of(planned[a].game.genres).contains(id),
        spec_ids_of(planned[b].game.genres).contains(id),
        !known.contains(id),
    ensures
        ({
            let created = spec_ids_of(spec_genres_to_create(spec_genres_of(planned), known));
            exists|k: int|
                0 <= k < created.len() && created[k] == id && forall|other: int|
                    0 <= other < created.len() && created[other] == id ==> other == k
        }),
{
    let genres = spec_genres_of(planned);
    let created = spec_ids_of(spec_genres_to_create(genres, known));
    lemma_genres_to_create(genres, known);
    let j = choose|j: int|
        0 <= j < spec_ids_of(planned[a].game.genres).len() && spec_ids_of(planned[a].game.genres)[j]
            == id;
    lemma_genres_of_contains(planned, a, j);
    let at = choose|at: int| 0 <= at < genres.len() && genres[at] == planned[a].game.genres[j];
    assert(genres[at].library_id == id);
    assert(created.contains(id));
    let k = choose|k: int| 0 <= k < created.len() && created[k] == id;
    assert forall|other: int| 0 <= other < created.len() && created[other] == id implies other
        == k by {
        if other != k {
            assert(created[other] != created[k]);
        }
    }
}

} // verus!
