//! The catalog as a mathematical value, and the proof that what a sync pass
//! writes keeps the catalog in order: no natural key of a game twice, no
//! genre identity twice, and no link to a row that is not there.
use crate::catalog::{spec_row_of_game, GameGenre, GameRowView, GenreRowView};
use crate::models::{spec_game_of_scan, GameMetadataView, GameRefView, GenreView, ScannedGameView};
use crate::plan::{
    lemma_every_new_game_is_planned, lemma_genres_of_contains, lemma_genres_to_create,
    lemma_new_games, lemma_new_games_keep_keys_unique, lemma_sync_is_idempotent,
    spec_candidate_ids, spec_game_ids, spec_genre_ids, spec_genres_of, spec_genres_to_create,
    spec_ids_of, spec_ingest, spec_new_games, spec_planned_games, spec_ref_of, PlannedGameView,
};
use crate::text::{lemma_distinct, spec_distinct};
use vstd::prelude::*;

verus! {

/// The rows of the catalog. The order of the rows is the order in which
/// they were inserted; links have no order.
pub struct CatalogModel {
    pub games: Seq<GameRowView>,
    pub genres: Seq<GenreRowView>,
    pub links: Set<GameGenre>,
}

/// Two game rows carry the same natural key.
pub open spec fn same_game_key(a: GameRowView, b: GameRowView) -> bool {
    a.library_type == b.library_type && a.library_id == b.library_id
}

/// Two genre rows carry the same identity.
pub open spec fn same_genre_key(a: GenreRowView, b: GenreRowView) -> bool {
    a.metadata_source == b.metadata_source && a.metadata_id == b.metadata_id
}

/// The catalog holds a game row with this id.
pub open spec fn has_game(catalog: CatalogModel, id: i32) -> bool {
    exists|i: int| 0 <= i < catalog.games.len() && #[trigger] catalog.games[i].id == id
}

/// The catalog holds a genre row with this id.
pub open spec fn has_genre(catalog: CatalogModel, id: i32) -> bool {
    exists|i: int| 0 <= i < catalog.genres.len() && #[trigger] catalog.genres[i].id == id
}

/// The catalog is in order: every natural key of a game stands in one row,
/// every genre identity stands in one row, and every link joins two rows
/// that are there.
pub open spec fn catalog_invariant(catalog: CatalogModel) -> bool {
    &&& forall|i: int, j: int|
        0 <= i < j < catalog.games.len() ==> !same_game_key(
            #[trigger] catalog.games[i],
            #[trigger] catalog.games[j],
        )
    &&& forall|i: int, j: int|
        0 <= i < j < catalog.genres.len() ==> !same_genre_key(
            #[trigger] catalog.genres[i],
            #[trigger] catalog.genres[j],
        )
    &&& forall|link: GameGenre| #[trigger]
        catalog.links.contains(link) ==> has_game(catalog, link.game_id) && has_genre(
            catalog,
            link.genre_id,
        )
}

/// The genre rows that a pass inserts: one for each genre to create, under
/// the id that the catalog gave it.
pub open spec fn spec_genre_rows_written(addon: Seq<char>, created: Seq<GenreView>, ids: Seq<i32>) -> Seq<
    GenreRowView,
> {
    Seq::new(
        created.len(),
        |k: int|
            GenreRowView {
                id: ids[k],
                name: created[k].name,
                metadata_source: addon,
                metadata_id: created[k].library_id,
            },
    )
}

/// The map from genre ids to row ids once the genres to create have been
/// inserted.
pub open spec fn spec_rows_with(rows: Map<Seq<char>, i32>, created: Seq<GenreView>, ids: Seq<i32>) -> Map<
    Seq<char>,
    i32,
>
    decreases created.len(),
{
    if created.len() == 0 {
        rows
    } else {
        spec_rows_with(rows, created.drop_last(), ids).insert(
            created.last().library_id,
            ids[created.len() - 1],
        )
    }
}

/// The game rows that a pass inserts: one for each planned game, under the
/// id that the catalog gave it.
pub open spec fn spec_game_rows_written(planned: Seq<PlannedGameView>, ids: Seq<i32>) -> Seq<GameRowView> {
    Seq::new(
        planned.len(),
        |k: int| GameRowView { id: ids[k], ..spec_row_of_game(planned[k].game) },
    )
}

/// The links that a pass inserts: for each planned game, one to the row of
/// each of its genre ids.
pub open spec fn spec_links_written(
    planned: Seq<PlannedGameView>,
    game_ids: Seq<i32>,
    rows: Map<Seq<char>, i32>,
) -> Set<GameGenre> {
    Set::new(
        |link: GameGenre|
            exists|k: int, m: int|
                0 <= k < planned.len() && 0 <= m < planned[k].genre_ids.len() && link == (GameGenre {
                    game_id: game_ids[k],
                    genre_id: rows[#[trigger] planned[k].genre_ids[m]],
                }),
    )
}

/// The catalog after a pass has committed.
pub open spec fn spec_after_pass(
    catalog: CatalogModel,
    addon: Seq<char>,
    planned: Seq<PlannedGameView>,
    created: Seq<GenreView>,
    rows: Map<Seq<char>, i32>,
    genre_ids: Seq<i32>,
    game_ids: Seq<i32>,
) -> CatalogModel {
    CatalogModel {
        games: catalog.games + spec_game_rows_written(planned, game_ids),
        genres: catalog.genres + spec_genre_rows_written(addon, created, genre_ids),
        links: catalog.links.union(
            spec_links_written(planned, game_ids, spec_rows_with(rows, created, genre_ids)),
        ),
    }
}

/// The library ids that the catalog holds for an addon among those it is
/// asked about: its truthful answer to the first question of a pass.
pub open spec fn spec_held_ids(catalog: CatalogModel, addon: Seq<char>, asked: Seq<Seq<char>>) -> Set<
    Seq<char>,
> {
    Set::new(
        |id: Seq<char>|
            asked.contains(id) && exists|j: int|
                0 <= j < catalog.games.len() && (#[trigger] catalog.games[j]).library_type == addon
                    && catalog.games[j].library_id == id,
    )
}

/// The catalog answered the two questions of the pass truthfully: every
/// game row of the addon whose library id the scan names is among the
/// existing ids; every genre id with a row number stands for a genre row of
/// the addon with that number; and every genre row of the addon whose id
/// the pass asked about has a row number. Nothing is asked of the scan.
pub open spec fn pass_sees_catalog(
    catalog: CatalogModel,
    addon: Seq<char>,
    scanned: Seq<ScannedGameView>,
    existing: Set<Seq<char>>,
    asked: Seq<Seq<char>>,
    rows: Map<Seq<char>, i32>,
) -> bool {
    &&& forall|j: int|
        0 <= j < catalog.games.len() && (#[trigger] catalog.games[j]).library_type == addon
            && spec_candidate_ids(scanned).contains(catalog.games[j].library_id)
            ==> existing.contains(catalog.games[j].library_id)
    &&& forall|id: Seq<char>| #[trigger]
        rows.dom().contains(id) ==> exists|j: int|
            0 <= j < catalog.genres.len() && (#[trigger] catalog.genres[j]).metadata_source == addon
                && catalog.genres[j].metadata_id == id && catalog.genres[j].id == rows[id]
    &&& forall|j: int|
        0 <= j < catalog.genres.len() && (#[trigger] catalog.genres[j]).metadata_source == addon
            && asked.contains(catalog.genres[j].metadata_id) ==> rows.dom().contains(
            catalog.genres[j].metadata_id,
        )
}

proof fn lemma_rows_with(rows: Map<Seq<char>, i32>, created: Seq<GenreView>, ids: Seq<i32>)
    requires
        ids.len() >= created.len(),
        spec_ids_of(created).no_duplicates(),
        forall|k: int| 0 <= k < created.len() ==> !rows.dom().contains((#[trigger] created[k]).library_id),
    ensures
        forall|id: Seq<char>| #[trigger]
            rows.dom().contains(id) ==> spec_rows_with(rows, created, ids).dom().contains(id)
                && spec_rows_with(rows, created, ids)[id] == rows[id],
        forall|k: int|
            0 <= k < created.len() ==> spec_rows_with(rows, created, ids).dom().contains(
                (#[trigger] created[k]).library_id,
            ) && spec_rows_with(rows, created, ids)[created[k].library_id] == ids[k],
    decreases created.len(),
{
    if created.len() > 0 {
        let front = created.drop_last();
        let last = created.last();
        assert(spec_ids_of(front).no_duplicates()) by {
            assert forall|a: int, b: int|
                0 <= a < front.len() && 0 <= b < front.len() && a != b implies spec_ids_of(front)[a]
                != spec_ids_of(front)[b] by {
                assert(spec_ids_of(created)[a] != spec_ids_of(created)[b]);
            }
        }
        assert forall|k: int| 0 <= k < front.len() implies !rows.dom().contains(
            (#[trigger] front[k]).library_id,
        ) by {
            assert(front[k] == created[k]);
        }
        lemma_rows_with(rows, front, ids);
        let before = spec_rows_with(rows, front, ids);
        let after = spec_rows_with(rows, created, ids);
        assert forall|id: Seq<char>| #[trigger] rows.dom().contains(id) implies after.dom().contains(id)
            && after[id] == rows[id] by {
            assert(created[created.len() - 1] == last);
            assert(id != last.library_id);
        }
        assert forall|k: int| 0 <= k < created.len() implies after.dom().contains(
            (#[trigger] created[k]).library_id,
        ) && after[created[k].library_id] == ids[k] by {
            if k < front.len() {
                assert(front[k] == created[k]);
                assert(spec_ids_of(created)[k] != spec_ids_of(created)[created.len() - 1]);
            }
        }
    }
}

/// What a pass writes keeps the catalog in order. Let the catalog be in
/// order and let it have answered the pass truthfully. Then, whatever the
/// addon's scan lists and however often it lists a game or a genre, the
/// catalog with the rows and the links of the pass, under whatever ids the
/// catalog gave to the rows, is in order again.
pub proof fn lemma_pass_keeps_catalog_in_order(
    catalog: CatalogModel,
    addon: Seq<char>,
    scanned: Seq<ScannedGameView>,
    existing: Set<Seq<char>>,
    results: Seq<(GameRefView, GameMetadataView)>,
    rows: Map<Seq<char>, i32>,
    genre_ids: Seq<i32>,
    game_ids: Seq<i32>,
)
    requires
        catalog_invariant(catalog),
        pass_sees_catalog(
            catalog,
            addon,
            scanned,
            existing,
            spec_genre_ids(
                spec_planned_games(spec_new_games(addon, scanned, existing), spec_ingest(results)),
            ),
            rows,
        ),
        game_ids.len() == spec_new_games(addon, scanned, existing).len(),
        genre_ids.len() == spec_genres_to_create(
            spec_genres_of(
                spec_planned_games(spec_new_games(addon, scanned, existing), spec_ingest(results)),
            ),
            rows.dom(),
        ).len(),
    ensures
        ({
            let planned = spec_planned_games(spec_new_games(addon, scanned, existing), spec_ingest(results));
            let created = spec_genres_to_create(spec_genres_of(planned), rows.dom());
            catalog_invariant(
                spec_after_pass(catalog, addon, planned, created, rows, genre_ids, game_ids),
            )
        }),
{
    let fresh = spec_new_games(addon, scanned, existing);
    let planned = spec_planned_games(fresh, spec_ingest(results));
    let wanted = spec_genres_of(planned);
    let created = spec_genres_to_create(wanted, rows.dom());
    let rows_after = spec_rows_with(rows, created, genre_ids);
    let after = spec_after_pass(catalog, addon, planned, created, rows, genre_ids, game_ids);
    let new_games = spec_game_rows_written(planned, game_ids);
    let new_genres = spec_genre_rows_written(addon, created, genre_ids);
    lemma_genres_to_create(wanted, rows.dom());
    lemma_rows_with(rows, created, genre_ids);
    lemma_new_games_keep_keys_unique(addon, scanned, existing);
    lemma_new_games(addon, scanned, existing);

    // What is known of each new game row.
    assert forall|k: int| 0 <= k < planned.len() implies {
        &&& (#[trigger] new_games[k]).library_type == addon
        &&& new_games[k].library_id == spec_game_ids(fresh)[k]
        &&& spec_candidate_ids(scanned).contains(new_games[k].library_id)
        &&& !existing.contains(new_games[k].library_id)
    } by {
        lemma_every_new_game_is_planned(fresh, spec_ingest(results), k);
        let j = choose|j: int| 0 <= j < scanned.len() && fresh[k] == spec_game_of_scan(#[trigger] scanned[j]);
        assert(spec_candidate_ids(scanned)[j] == fresh[k].library_id);
        assert(spec_ref_of(planned[k].game) == spec_ref_of(fresh[k]));
    }

    // No natural key of a game twice.
    assert forall|i: int, j: int| 0 <= i < j < after.games.len() implies !same_game_key(
        #[trigger] after.games[i],
        #[trigger] after.games[j],
    ) by {
        let old = catalog.games.len() as int;
        if j < old {
            assert(!same_game_key(catalog.games[i], catalog.games[j]));
        } else if i < old {
            let row = catalog.games[i];
            let written = new_games[j - old];
            if same_game_key(row, written) {
                assert(existing.contains(row.library_id));
            }
        } else {
            assert(spec_game_ids(fresh)[i - old] != spec_game_ids(fresh)[j - old]);
            assert(new_games[i - old].library_id != new_games[j - old].library_id);
        }
    }

    // No genre identity twice.
    assert forall|i: int, j: int| 0 <= i < j < after.genres.len() implies !same_genre_key(
        #[trigger] after.genres[i],
        #[trigger] after.genres[j],
    ) by {
        let old = catalog.genres.len() as int;
        if j < old {
            assert(!same_genre_key(catalog.genres[i], catalog.genres[j]));
        } else if i < old {
            let row = catalog.genres[i];
            let made = created[j - old];
            if same_genre_key(row, new_genres[j - old]) {
                assert(wanted.contains(made));
                let at = choose|at: int| 0 <= at < wanted.len() && wanted[at] == made;
                assert(spec_ids_of(wanted)[at] == made.library_id);
                lemma_distinct(spec_ids_of(wanted));
                assert(spec_genre_ids(planned).contains(made.library_id));
                assert(rows.dom().contains(row.metadata_id));
            }
        } else {
            assert(spec_ids_of(created)[i - old] != spec_ids_of(created)[j - old]);
        }
    }

    // No link to a row that is not there.
    assert forall|link: GameGenre| #[trigger] after.links.contains(link) implies has_game(
        after,
        link.game_id,
    ) && has_genre(after, link.genre_id) by {
        if catalog.links.contains(link) {
            let i = choose|i: int| 0 <= i < catalog.games.len() && #[trigger] catalog.games[i].id == link.game_id;
            assert(after.games[i].id == link.game_id);
            let j = choose|j: int|
                0 <= j < catalog.genres.len() && #[trigger] catalog.genres[j].id == link.genre_id;
            assert(after.genres[j].id == link.genre_id);
        } else {
            let (k, m) = choose|k: int, m: int|
                0 <= k < planned.len() && 0 <= m < planned[k].genre_ids.len() && link == (GameGenre {
                    game_id: game_ids[k],
                    genre_id: rows_after[#[trigger] planned[k].genre_ids[m]],
                });
            assert(after.games[catalog.games.len() + k].id == link.game_id);
            let id = planned[k].genre_ids[m];
            let listed = planned[k].game.genres;
            lemma_distinct(spec_ids_of(listed));
            assert(spec_distinct(spec_ids_of(listed)).contains(id));
            let n = choose|n: int| 0 <= n < spec_ids_of(listed).len() && spec_ids_of(listed)[n] == id;
            lemma_genres_of_contains(planned, k, n);
            let at = choose|at: int| 0 <= at < wanted.len() && wanted[at] == listed[n];
            assert(wanted[at].library_id == id);
            if rows.dom().contains(id) {
                let j = choose|j: int|
                    0 <= j < catalog.genres.len() && (#[trigger] catalog.genres[j]).metadata_source
                        == addon && catalog.genres[j].metadata_id == id && catalog.genres[j].id
                        == rows[id];
                assert(after.genres[j].id == link.genre_id);
            } else {
                let c = choose|c: int| 0 <= c < spec_ids_of(created).len() && spec_ids_of(created)[c] == id;
                assert(created[c].library_id == id);
                assert(after.genres[catalog.genres.len() + c].id == link.genre_id);
            }
        }
    }
}

/// A second pass adds no game row. Let a pass of an addon commit on any
/// catalog, for any scan and any metadata, with the catalog answering
/// truthfully which of the scan's library ids it holds for the addon. Let a
/// second pass of the addon run on the catalog that the first one left, over
/// the same scan, with the catalog answering truthfully again. Then the
/// second pass finds no new game, and the game rows of the catalog after it
/// are those after the first pass, whatever metadata and ids came the second
/// time.
pub proof fn lemma_second_pass_adds_no_game(
    catalog: CatalogModel,
    addon: Seq<char>,
    scanned: Seq<ScannedGameView>,
    results: Seq<(GameRefView, GameMetadataView)>,
    rows: Map<Seq<char>, i32>,
    genre_ids: Seq<i32>,
    game_ids: Seq<i32>,
    results_again: Seq<(GameRefView, GameMetadataView)>,
    rows_again: Map<Seq<char>, i32>,
    genre_ids_again: Seq<i32>,
    game_ids_again: Seq<i32>,
)
    ensures
        ({
            let asked = spec_candidate_ids(scanned);
            let planned = spec_planned_games(
                spec_new_games(addon, scanned, spec_held_ids(catalog, addon, asked)),
                spec_ingest(results),
            );
            let created = spec_genres_to_create(spec_genres_of(planned), rows.dom());
            let first = spec_after_pass(catalog, addon, planned, created, rows, genre_ids, game_ids);
            let new_again = spec_new_games(addon, scanned, spec_held_ids(first, addon, asked));
            let planned_again = spec_planned_games(new_again, spec_ingest(results_again));
            let created_again = spec_genres_to_create(spec_genres_of(planned_again), rows_again.dom());
            let second = spec_after_pass(
                first,
                addon,
                planned_again,
                created_again,
                rows_again,
                genre_ids_again,
                game_ids_again,
            );
            &&& new_again.len() == 0
            &&& planned_again.len() == 0
            &&& second.games == first.games
        }),
{
    let asked = spec_candidate_ids(scanned);
    let existing = spec_held_ids(catalog, addon, asked);
    let fresh = spec_new_games(addon, scanned, existing);
    let planned = spec_planned_games(fresh, spec_ingest(results));
    let created = spec_genres_to_create(spec_genres_of(planned), rows.dom());
    let first = spec_after_pass(catalog, addon, planned, created, rows, genre_ids, game_ids);
    let after = spec_held_ids(first, addon, asked);
    let written = spec_game_rows_written(planned, game_ids);
    lemma_new_games(addon, scanned, existing);
    assert forall|j: int|
        0 <= j < scanned.len() && (#[trigger] scanned[j]).library_type == addon && existing.contains(
            scanned[j].library_id,
        ) implies after.contains(scanned[j].library_id) by {
        let id = scanned[j].library_id;
        let at = choose|at: int|
            0 <= at < catalog.games.len() && (#[trigger] catalog.games[at]).library_type == addon
                && catalog.games[at].library_id == id;
        assert(first.games[at] == catalog.games[at]);
    }
    assert forall|i: int| 0 <= i < fresh.len() implies after.contains(#[trigger] fresh[i].library_id) by {
        lemma_every_new_game_is_planned(fresh, spec_ingest(results), i);
        assert(spec_ref_of(planned[i].game) == spec_ref_of(fresh[i]));
        let j = choose|j: int| 0 <= j < scanned.len() && fresh[i] == spec_game_of_scan(#[trigger] scanned[j]);
        assert(asked[j] == fresh[i].library_id);
        let row = first.games[catalog.games.len() + i];
        assert(row == written[i]);
        assert(row.library_type == addon && row.library_id == fresh[i].library_id);
    }
    lemma_sync_is_idempotent(addon, scanned, existing, after);
    let planned_again = spec_planned_games(
        spec_new_games(addon, scanned, after),
        spec_ingest(results_again),
    );
    assert(first.games + spec_game_rows_written(planned_again, game_ids_again) =~= first.games);
}

/// The rows of the pass follow the ledger while it writes genres. Let the
/// pass wait for the row id of the genre at its cursor, with the row ids of
/// the genres before the cursor taken in as they came. Then the insert that
/// the pass waits for is that of the genre at the cursor, and once the id
/// comes the row ids of the genres up to and with the cursor are taken in.
pub proof fn lemma_genre_writes_follow_ledger(
    pass: crate::sync::SyncPassView,
    known: Map<Seq<char>, i32>,
    ids: Seq<i32>,
)
    requires
        crate::sync::pass_invariant(pass),
        pass.stage is WritingGenres,
        pass.cursor < ids.len(),
        pass.rows == spec_rows_with(known, pass.genres.take(pass.cursor as int), ids),
    ensures
        ({
            let next = crate::sync::spec_step(
                pass,
                crate::sync::EventView::Inserted(ids[pass.cursor as int]),
            ).0;
            &&& next.genres == pass.genres
            &&& next.planned == pass.planned
            &&& next.rows == spec_rows_with(known, pass.genres.take(pass.cursor as int + 1), ids)
            &&& if pass.cursor + 1 < pass.genres.len() {
                next.stage is WritingGenres && next.cursor == pass.cursor + 1
            } else {
                next.rows == spec_rows_with(known, pass.genres, ids) && next.cursor == 0 && (
                next.stage is WritingGames || next.stage is Committing)
            }
        }),
{
    let upto = pass.genres.take(pass.cursor as int + 1);
    assert(upto.drop_last() =~= pass.genres.take(pass.cursor as int));
    assert(upto.last() == pass.genres[pass.cursor as int]);
    if pass.cursor + 1 >= pass.genres.len() {
        assert(upto =~= pass.genres);
    }
}

/// The links that the pass asks for are links of the ledger. Let the pass
/// wait for the row id of the game at its cursor, with every genre row
/// number taken in. Then, once the id comes, the links that the pass asks to
/// be inserted are among the links that the ledger holds for the pass, and
/// they are all the links of that game.
pub proof fn lemma_link_writes_follow_ledger(pass: crate::sync::SyncPassView, game_ids: Seq<i32>)
    requires
        crate::sync::pass_invariant(pass),
        pass.stage is WritingGames,
        pass.cursor < game_ids.len(),
    ensures
        ({
            let command = crate::sync::spec_step(
                pass,
                crate::sync::EventView::Inserted(game_ids[pass.cursor as int]),
            ).1;
            let wanted = pass.planned[pass.cursor as int].genre_ids;
            if wanted.len() > 0 {
                &&& command matches crate::sync::CommandView::InsertLinks { links }
                &&& links.len() == wanted.len()
                &&& forall|m: int|
                    0 <= m < links.len() ==> spec_links_written(
                        pass.planned,
                        game_ids,
                        pass.rows,
                    ).contains(#[trigger] links[m])
            } else {
                !(command is InsertLinks)
            }
        }),
{
    let k = pass.cursor as int;
    let wanted = pass.planned[k].genre_ids;
    if wanted.len() > 0 {
        let links = crate::sync::spec_links(game_ids[k], wanted, pass.rows);
        assert forall|m: int| 0 <= m < links.len() implies spec_links_written(
            pass.planned,
            game_ids,
            pass.rows,
        ).contains(#[trigger] links[m]) by {
            assert(links[m] == GameGenre {
                game_id: game_ids[k],
                genre_id: pass.rows[pass.planned[k].genre_ids[m]],
            });
        }
    }
}

} // verus!
