//! The metadata fetch engine: the bookkeeping of a batch of fetches that run
//! with bounded concurrency. The engine hands out the next game to fetch,
//! takes the outcome of each fetch under the token it handed out, and reports
//! progress after every outcome, whether the fetch worked or not.
use crate::models::{GameLibraryRefOwned, GameMetadata, GameMetadataView, GameRefView};
use vstd::prelude::*;

verus! {

/// The number of fetches that run at the same time unless the caller asks for
/// another number.
pub const DEFAULT_WIDTH: usize = 8;

/// Why the fetch for one game gave no metadata.
#[derive(Debug, Clone, Copy, PartialEq, Eq, Structural)]
pub enum FetchError {
    /// Timeout, a status other than success, or a failure of the transport.
    Network,
    /// The body was not of the expected shape.
    Decode,
}

/// How one fetch ended.
#[derive(Debug)]
pub enum FetchOutcome {
    /// The source answered. Metadata with every field absent means that the
    /// source knows the game and has nothing to say of it.
    Fetched(GameMetadata),
    Failed(FetchError),
}

/// Where one game of the batch stands.
#[derive(Debug)]
pub enum Slot {
    Pending,
    InFlight,
    Fetched(GameMetadata),
    Failed(FetchError),
}

/// The mathematical value of a slot.
pub enum SlotView {
    Pending,
    InFlight,
    Fetched(GameMetadataView),
    Failed(FetchError),
}

impl View for Slot {
    type V = SlotView;

    open spec fn view(&self) -> SlotView {
        match self {
            Slot::Pending => SlotView::Pending,
            Slot::InFlight => SlotView::InFlight,
            Slot::Fetched(metadata) => SlotView::Fetched(metadata@),
            Slot::Failed(error) => SlotView::Failed(*error),
        }
    }
}

impl DeepView for Slot {
    type V = SlotView;

    open spec fn deep_view(&self) -> SlotView {
        self@
    }
}

/// A tick of progress: `current` of `total` fetches have ended.
#[derive(Debug, Clone, Copy, PartialEq, Eq, Structural)]
pub struct FetchProgress {
    pub current: usize,
    pub total: usize,
}

/// The number of slots that are in flight.
pub open spec fn count_in_flight(slots: Seq<SlotView>) -> nat
    decreases slots.len(),
{
    if slots.len() == 0 {
        0
    } else {
        count_in_flight(slots.drop_last()) + if slots.last() is InFlight {
            1nat
        } else {
            0nat
        }
    }
}

/// The number of slots whose fetch has ended, well or badly.
pub open spec fn count_ended(slots: Seq<SlotView>) -> nat
    decreases slots.len(),
{
    if slots.len() == 0 {
        0
    } else {
        count_ended(slots.drop_last()) + if slots.last() is Fetched || slots.last() is Failed {
            1nat
        } else {
            0nat
        }
    }
}

/// The number of slots whose fetch failed.
pub open spec fn count_failed(slots: Seq<SlotView>) -> nat
    decreases slots.len(),
{
    if slots.len() == 0 {
        0
    } else {
        count_failed(slots.drop_last()) + if slots.last() is Failed {
            1nat
        } else {
            0nat
        }
    }
}

/// The metadata that the batch has brought so far, each with the game it is
/// for, in the order of the batch. A game whose fetch failed or has not ended
/// is left out.
pub open spec fn spec_results(games: Seq<GameRefView>, slots: Seq<SlotView>) -> Seq<
    (GameRefView, GameMetadataView),
>
    decreases slots.len(),
{
    if slots.len() == 0 || games.len() != slots.len() {
        Seq::empty()
    } else {
        let front = spec_results(games.drop_last(), slots.drop_last());
        match slots.last() {
            SlotView::Fetched(metadata) => front.push((games.last(), metadata)),
            _ => front,
        }
    }
}

/// Every fetch of the batch has ended.
pub open spec fn all_ended(slots: Seq<SlotView>) -> bool {
    forall|i: int| 0 <= i < slots.len() ==> (#[trigger] slots[i] is Fetched || slots[i] is Failed)
}

proof fn lemma_counts_after_update(slots: Seq<SlotView>, i: int, slot: SlotView)
    requires
        0 <= i < slots.len(),
    ensures
        count_in_flight(slots.update(i, slot)) + (if slots[i] is InFlight {
            1int
        } else {
            0int
        }) == count_in_flight(slots) + (if slot is InFlight {
            1int
        } else {
            0int
        }),
        count_ended(slots.update(i, slot)) + (if slots[i] is Fetched || slots[i] is Failed {
            1int
        } else {
            0int
        }) == count_ended(slots) + (if slot is Fetched || slot is Failed {
            1int
        } else {
            0int
        }),
    decreases slots.len(),
{
    let after = slots.update(i, slot);
    if i == slots.len() - 1 {
        assert(after.drop_last() =~= slots.drop_last());
    } else {
        lemma_counts_after_update(slots.drop_last(), i, slot);
        assert(after.drop_last() =~= slots.drop_last().update(i, slot));
    }
}

proof fn lemma_counts_bounds(slots: Seq<SlotView>)
    ensures
        count_in_flight(slots) + count_ended(slots) <= slots.len(),
        count_failed(slots) <= count_ended(slots),
        count_ended(slots) == slots.len() <==> all_ended(slots),
    decreases slots.len(),
{
    if slots.len() > 0 {
        let front = slots.drop_last();
        lemma_counts_bounds(front);
        if all_ended(slots) {
            assert forall|i: int| 0 <= i < front.len() implies (#[trigger] front[i] is Fetched
                || front[i] is Failed) by {
                assert(slots[i] is Fetched || slots[i] is Failed);
            }
        }
        if count_ended(slots) == slots.len() {
            assert forall|i: int| 0 <= i < slots.len() implies (#[trigger] slots[i] is Fetched
                || slots[i] is Failed) by {
                if i < front.len() {
                    assert(front[i] is Fetched || front[i] is Failed);
                }
            }
        }
    }
}

/// The number of results does not depend on which games the batch holds.
proof fn lemma_results_len(games: Seq<GameRefView>, slots: Seq<SlotView>)
    requires
        games.len() == slots.len(),
    ensures
        spec_results(games, slots).len() + count_failed(slots) == count_ended(slots),
    decreases slots.len(),
{
    if slots.len() > 0 {
        lemma_results_len(games.drop_last(), slots.drop_last());
    }
}

/// Partial failure is tolerated: when every fetch of a batch of N games has
/// ended and M of them failed, the batch holds exactly N - M results.
pub proof fn lemma_results_count(games: Seq<GameRefView>, slots: Seq<SlotView>)
    requires
        games.len() == slots.len(),
        all_ended(slots),
    ensures
        spec_results(games, slots).len() == slots.len() - count_failed(slots),
{
    lemma_results_len(games, slots);
    lemma_counts_bounds(slots);
}

/// Which games a batch answers for: the results hold an entry for a game of
/// the batch exactly where the fetch for it brought metadata, with that
/// metadata, and no other entry. A game whose fetch failed has none.
pub proof fn lemma_results_keys(games: Seq<GameRefView>, slots: Seq<SlotView>)
    requires
        games.len() == slots.len(),
    ensures
        forall|i: int|
            0 <= i < slots.len() && (#[trigger] slots[i]) is Fetched ==> spec_results(
                games,
                slots,
            ).contains((games[i], slots[i]->Fetched_0)),
        forall|k: int|
            0 <= k < spec_results(games, slots).len() ==> exists|i: int|
                0 <= i < slots.len() && #[trigger] slots[i] == SlotView::Fetched(
                    (#[trigger] spec_results(games, slots)[k]).1,
                ) && games[i] == spec_results(games, slots)[k].0,
    decreases slots.len(),
{
    let found = spec_results(games, slots);
    if slots.len() > 0 {
        let front_games = games.drop_last();
        let front_slots = slots.drop_last();
        let front = spec_results(front_games, front_slots);
        let last = slots.len() - 1;
        lemma_results_keys(front_games, front_slots);
        assert forall|i: int| 0 <= i < slots.len() && (#[trigger] slots[i]) is Fetched implies found.contains(
            (games[i], slots[i]->Fetched_0),
        ) by {
            if i < last {
                assert(front_slots[i] == slots[i] && front_games[i] == games[i]);
                let entry = (games[i], slots[i]->Fetched_0);
                let at = choose|at: int| 0 <= at < front.len() && front[at] == entry;
                assert(found[at] == entry);
            } else {
                assert(found[found.len() - 1] == (games[i], slots[i]->Fetched_0));
            }
        }
        assert forall|k: int| 0 <= k < found.len() implies exists|i: int|
            0 <= i < slots.len() && #[trigger] slots[i] == SlotView::Fetched((#[trigger] found[k]).1)
                && games[i] == found[k].0 by {
            if k < front.len() {
                assert(found[k] == front[k]);
                let i = choose|i: int|
                    0 <= i < front_slots.len() && #[trigger] front_slots[i] == SlotView::Fetched(
                        front[k].1,
                    ) && front_games[i] == front[k].0;
                assert(slots[i] == front_slots[i] && games[i] == front_games[i]);
            } else {
                assert(slots[last] == SlotView::Fetched(found[k].1) && games[last] == found[k].0);
            }
        }
    }
}

/// The mathematical value of an outcome.
pub enum OutcomeView {
    Fetched(GameMetadataView),
    Failed(FetchError),
}

impl View for FetchOutcome {
    type V = OutcomeView;

    open spec fn view(&self) -> OutcomeView {
        match self {
            FetchOutcome::Fetched(metadata) => OutcomeView::Fetched(metadata@),
            FetchOutcome::Failed(error) => OutcomeView::Failed(*error),
        }
    }
}

/// The slot that an outcome leaves behind.
pub open spec fn spec_slot_of(outcome: OutcomeView) -> SlotView {
    match outcome {
        OutcomeView::Fetched(metadata) => SlotView::Fetched(metadata),
        OutcomeView::Failed(error) => SlotView::Failed(error),
    }
}

/// The mathematical value of the engine: the batch in order, where each game
/// stands, how many fetches may run at once, and the token that the next
/// dispatch hands out.
pub struct EngineView {
    pub games: Seq<GameRefView>,
    pub slots: Seq<SlotView>,
    pub width: nat,
    pub next: nat,
}

/// What holds of the engine between any two calls: games leave the queue in
/// the order of the batch, and no more than `width` fetches are in flight.
pub open spec fn engine_invariant(engine: EngineView) -> bool {
    &&& engine.games.len() == engine.slots.len()
    &&& engine.width >= 1
    &&& engine.next <= engine.slots.len()
    &&& forall|i: int| engine.next <= i < engine.slots.len() ==> #[trigger] engine.slots[i] is Pending
    &&& forall|i: int| 0 <= i < engine.next ==> !(#[trigger] engine.slots[i] is Pending)
    &&& count_in_flight(engine.slots) <= engine.width
}

/// The engine at the start of a batch: every game waits.
pub open spec fn spec_start(games: Seq<GameRefView>, width: usize) -> EngineView {
    EngineView {
        games,
        slots: Seq::new(games.len(), |i: int| SlotView::Pending),
        width: if width == 0 {
            1
        } else {
            width as nat
        },
        next: 0,
    }
}

/// A fetch may start: a worker is free and a game waits.
pub open spec fn spec_can_dispatch(engine: EngineView) -> bool {
    count_in_flight(engine.slots) < engine.width && engine.next < engine.slots.len()
}

/// The engine after it has handed out the game at the head of the queue.
pub open spec fn spec_dispatch(engine: EngineView) -> EngineView {
    EngineView {
        slots: engine.slots.update(engine.next as int, SlotView::InFlight),
        next: engine.next + 1,
        ..engine
    }
}

/// The engine waits for the outcome of the fetch with this token.
pub open spec fn spec_awaits(engine: EngineView, token: usize) -> bool {
    token < engine.slots.len() && engine.slots[token as int] is InFlight
}

/// The engine after the fetch with this token has ended.
pub open spec fn spec_complete(engine: EngineView, token: usize, outcome: OutcomeView) -> EngineView {
    EngineView { slots: engine.slots.update(token as int, spec_slot_of(outcome)), ..engine }
}

proof fn lemma_no_slot_in_flight(slots: Seq<SlotView>)
    requires
        forall|i: int| 0 <= i < slots.len() ==> #[trigger] slots[i] is Pending,
    ensures
        count_in_flight(slots) == 0,
        count_ended(slots) == 0,
    decreases slots.len(),
{
    if slots.len() > 0 {
        let front = slots.drop_last();
        assert forall|i: int| 0 <= i < front.len() implies #[trigger] front[i] is Pending by {
            assert(slots[i] is Pending);
        }
        lemma_no_slot_in_flight(front);
    }
}

/// The engine starts within its bounds.
pub proof fn lemma_start_is_bounded(games: Seq<GameRefView>, width: usize)
    ensures
        engine_invariant(spec_start(games, width)),
        count_in_flight(spec_start(games, width).slots) == 0,
        count_ended(spec_start(games, width).slots) == 0,
{
    lemma_no_slot_in_flight(spec_start(games, width).slots);
}

/// Concurrency stays bounded: a dispatch that may happen leaves no more than
/// `width` fetches in flight, and exactly one more than before.
pub proof fn lemma_dispatch_is_bounded(engine: EngineView)
    requires
        engine_invariant(engine),
        spec_can_dispatch(engine),
    ensures
        engine_invariant(spec_dispatch(engine)),
        count_in_flight(spec_dispatch(engine).slots) == count_in_flight(engine.slots) + 1,
        count_ended(spec_dispatch(engine).slots) == count_ended(engine.slots),
{
    lemma_counts_after_update(engine.slots, engine.next as int, SlotView::InFlight);
    assert(engine.slots[engine.next as int] is Pending);
}

/// Every outcome that the engine waits for frees a worker and counts as one
/// fetch ended, whether it brought metadata or not.
pub proof fn lemma_complete_is_bounded(engine: EngineView, token: usize, outcome: OutcomeView)
    requires
        engine_invariant(engine),
        spec_awaits(engine, token),
    ensures
        engine_invariant(spec_complete(engine, token, outcome)),
        count_in_flight(spec_complete(engine, token, outcome).slots) + 1 == count_in_flight(
            engine.slots,
        ),
        count_ended(spec_complete(engine, token, outcome).slots) == count_ended(engine.slots) + 1,
{
    lemma_counts_after_update(engine.slots, token as int, spec_slot_of(outcome));
    assert(!(engine.slots[token as int] is Pending));
}

/// The bookkeeping of one batch of metadata fetches.
pub struct MetadataFetchEngine {
    games: Vec<GameLibraryRefOwned>,
    slots: Vec<Slot>,
    width: usize,
    next: usize,
    in_flight: usize,
    ended: usize,
}

impl View for MetadataFetchEngine {
    type V = EngineView;

    closed spec fn view(&self) -> EngineView {
        EngineView {
            games: self.games.deep_view(),
            slots: self.slots.deep_view(),
            width: self.width as nat,
            next: self.next as nat,
        }
    }
}

impl MetadataFetchEngine {
    /// The engine's counters agree with its slots, and the invariant holds.
    pub closed spec fn well_formed(&self) -> bool {
        &&& engine_invariant(self@)
        &&& self.in_flight == count_in_flight(self@.slots)
        &&& self.ended == count_ended(self@.slots)
    }

    /// What a well-formed engine guarantees to its callers.
    pub proof fn lemma_invariant(self)
        requires
            self.well_formed(),
        ensures
            engine_invariant(self@),
    {
    }

    /// An engine for `games` with the default number of workers.
    pub fn new(games: Vec<GameLibraryRefOwned>) -> (engine: Self)
        ensures
            engine.well_formed(),
            engine@ == spec_start(games.deep_view(), DEFAULT_WIDTH),
    {
        Self::with_width(games, DEFAULT_WIDTH)
    }

    /// An engine for `games` with `width` workers, and with one worker where
    /// `width` is zero.
    pub fn with_width(games: Vec<GameLibraryRefOwned>, width: usize) -> (engine: Self)
        ensures
            engine.well_formed(),
            engine@ == spec_start(games.deep_view(), width),
    {
        let mut slots: Vec<Slot> = Vec::new();
        let mut i: usize = 0;
        while i < games.len()
            invariant
                i <= games.len(),
                slots.len() == i,
                forall|j: int| 0 <= j < i ==> slots[j]@ is Pending,
            decreases games.len() - i,
        {
            slots.push(Slot::Pending);
            i += 1;
        }
        let engine = MetadataFetchEngine {
            games,
            slots,
            width: if width == 0 {
                1
            } else {
                width
            },
            next: 0,
            in_flight: 0,
            ended: 0,
        };
        proof {
            assert(engine@.slots =~= spec_start(games.deep_view(), width).slots);
            lemma_no_slot_in_flight(engine@.slots);
        }
        engine
    }

    /// The number of games in the batch.
    pub fn total(&self) -> (n: usize)
        requires
            self.well_formed(),
        ensures
            n == self@.games.len(),
    {
        self.games.len()
    }

    /// The number of fetches that have ended, well or badly.
    pub fn ended(&self) -> (n: usize)
        requires
            self.well_formed(),
        ensures
            n == count_ended(self@.slots),
    {
        self.ended
    }

    /// The number of fetches in flight. It never exceeds the width.
    pub fn in_flight(&self) -> (n: usize)
        requires
            self.well_formed(),
        ensures
            n == count_in_flight(self@.slots),
            n <= self@.width,
    {
        self.in_flight
    }

    /// Whether every fetch of the batch has ended.
    pub fn is_done(&self) -> (done: bool)
        requires
            self.well_formed(),
        ensures
            done == all_ended(self@.slots),
    {
        proof {
            lemma_counts_bounds(self@.slots);
        }
        self.ended == self.slots.len()
    }

    /// Hands out the next game to fetch, with the token under which its
    /// outcome is to be reported: `Some` exactly when a worker is free and a
    /// game waits. The games leave in the order of the batch.
    pub fn next_dispatch(&mut self) -> (job: Option<(usize, GameLibraryRefOwned)>)
        requires
            old(self).well_formed(),
        ensures
            final(self).well_formed(),
            match job {
                Some((token, game)) => {
                    &&& spec_can_dispatch(old(self)@)
                    &&& token == old(self)@.next
                    &&& game@ == old(self)@.games[token as int]
                    &&& final(self)@ == spec_dispatch(old(self)@)
                },
                None => !spec_can_dispatch(old(self)@) && final(self)@ == old(self)@,
            },
    {
        if self.in_flight >= self.width || self.next >= self.slots.len() {
            return None;
        }
        let token = self.next;
        let ghost before = self@;
        proof {
            lemma_counts_after_update(before.slots, token as int, SlotView::InFlight);
            assert(before.slots[token as int] is Pending);
        }
        self.slots.set(token, Slot::InFlight);
        self.next = token + 1;
        self.in_flight = self.in_flight + 1;
        let game = self.games[token].clone();
        proof {
            assert(self@.slots =~= before.slots.update(token as int, SlotView::InFlight));
            assert(game@ == before.games[token as int]);
        }
        Some((token, game))
    }

    /// Takes the outcome of the fetch with this token and reports the
    /// progress made: `Some` exactly when the engine waits for that fetch. A
    /// token that the engine does not wait for changes nothing.
    pub fn complete(&mut self, token: usize, outcome: FetchOutcome) -> (progress: Option<
        FetchProgress,
    >)
        requires
            old(self).well_formed(),
        ensures
            final(self).well_formed(),
            match progress {
                Some(tick) => {
                    &&& spec_awaits(old(self)@, token)
                    &&& final(self)@ == spec_complete(old(self)@, token, outcome@)
                    &&& tick.total == old(self)@.games.len()
                    &&& tick.current == count_ended(old(self)@.slots) + 1
                    &&& tick.current == count_ended(final(self)@.slots)
                    &&& tick.current <= tick.total
                },
                None => !spec_awaits(old(self)@, token) && final(self)@ == old(self)@,
            },
    {
        if token >= self.slots.len() {
            return None;
        }
        match &self.slots[token] {
            Slot::InFlight => {},
            _ => {
                return None;
            },
        }
        let ghost before = self@;
        let slot = match outcome {
            FetchOutcome::Fetched(metadata) => Slot::Fetched(metadata),
            FetchOutcome::Failed(error) => Slot::Failed(error),
        };
        proof {
            assert(slot@ == spec_slot_of(outcome@));
            lemma_counts_after_update(before.slots, token as int, slot@);
            lemma_counts_bounds(before.slots);
            lemma_counts_bounds(before.slots.update(token as int, slot@));
        }
        self.slots.set(token, slot);
        self.in_flight = self.in_flight - 1;
        self.ended = self.ended + 1;
        proof {
            assert(self@.slots =~= before.slots.update(token as int, spec_slot_of(outcome@)));
        }
        Some(FetchProgress { current: self.ended, total: self.games.len() })
    }

    /// The metadata fetched so far, each with the game it is for, in the
    /// order of the batch.
    pub fn results(&self) -> (found: Vec<(GameLibraryRefOwned, GameMetadata)>)
        requires
            self.well_formed(),
        ensures
            found.deep_view() == spec_results(self@.games, self@.slots),
    {
        let mut found: Vec<(GameLibraryRefOwned, GameMetadata)> = Vec::new();
        let mut i: usize = 0;
        assert(self@.games.take(0) =~= Seq::empty());
        assert(self@.slots.take(0) =~= Seq::empty());
        while i < self.slots.len()
            invariant
                i <= self.slots.len(),
                self.well_formed(),
                found.deep_view() == spec_results(self@.games.take(i as int), self@.slots.take(i as int)),
            decreases self.slots.len() - i,
        {
            let ghost before = found.deep_view();
            proof {
                assert(self@.games.take(i + 1).drop_last() =~= self@.games.take(i as int));
                assert(self@.slots.take(i + 1).drop_last() =~= self@.slots.take(i as int));
                assert(self@.slots.take(i + 1).last() == self@.slots[i as int]);
                assert(self@.games.take(i + 1).last() == self@.games[i as int]);
            }
            match &self.slots[i] {
                Slot::Fetched(metadata) => {
                    let entry = (self.games[i].clone(), metadata.clone());
                    found.push(entry);
                    proof {
                        assert(self@.slots[i as int] == SlotView::Fetched(metadata@));
                        assert(found.deep_view() =~= before.push((self@.games[i as int], metadata@)));
                    }
                },
                _ => {},
            }
            i += 1;
        }
        proof {
            assert(self@.games.take(i as int) =~= self@.games);
            assert(self@.slots.take(i as int) =~= self@.slots);
        }
        found
    }
}

/// The answer of the single-game form of a fetch: the metadata where the
/// fetch worked, nothing where it failed.
pub open spec fn spec_single_result(outcome: OutcomeView) -> Option<GameMetadataView> {
    match outcome {
        OutcomeView::Fetched(metadata) => Some(metadata),
        OutcomeView::Failed(_) => None,
    }
}

/// The single-game form of a fetch: what a batch of one game would hold for
/// that game, without the bookkeeping.
pub fn single_result(outcome: FetchOutcome) -> (metadata: Option<GameMetadata>)
    ensures
        metadata.deep_view() == spec_single_result(outcome@),
{
    match outcome {
        FetchOutcome::Fetched(metadata) => Some(metadata),
        FetchOutcome::Failed(_) => None,
    }
}

/// `outcome` is a way in which `fetch` ends when it is asked about `game`.
pub open spec fn spec_ends_with<G: Fn(GameLibraryRefOwned) -> FetchOutcome>(
    fetch: G,
    game: GameRefView,
    outcome: OutcomeView,
) -> bool {
    exists|asked: GameLibraryRefOwned, ended: FetchOutcome|
        asked@ == game && #[trigger] call_ensures(fetch, (asked,), ended) && ended@ == outcome
}

/// `found` is what a batch holds for `games` once the fetch for each game
/// has ended as `outcomes` says: an entry for every game whose fetch brought
/// metadata, none for a game whose fetch failed, in the order of the batch.
pub open spec fn spec_batch_of(
    games: Seq<GameRefView>,
    outcomes: Seq<OutcomeView>,
    found: Seq<(GameRefView, GameMetadataView)>,
) -> bool {
    let slots = outcomes.map_values(|outcome: OutcomeView| spec_slot_of(outcome));
    &&& outcomes.len() == games.len()
    &&& found == spec_results(games, slots)
    &&& found.len() == games.len() - count_failed(slots)
}

/// The batch form of a fetch, run in the caller's own thread: every game of
/// the batch goes through the engine, `fetch` is asked about each of them
/// once, in the order of the batch, and `on_progress` hears of every fetch
/// as it ends. No failure stops the batch: of N games of which M fail, the
/// answer holds the other N - M.
pub fn get_metadatas<G: Fn(GameLibraryRefOwned) -> FetchOutcome, F: Fn(FetchProgress)>(
    games: &Vec<GameLibraryRefOwned>,
    fetch: G,
    on_progress: F,
) -> (found: Vec<(GameLibraryRefOwned, GameMetadata)>)
    requires
        forall|game: GameLibraryRefOwned| call_requires(fetch, (game,)),
        forall|tick: FetchProgress| call_requires(on_progress, (tick,)),
    ensures
        exists|outcomes: Seq<OutcomeView>|
            {
                &&& spec_batch_of(games.deep_view(), outcomes, found.deep_view())
                &&& forall|i: int|
                    0 <= i < games.len() ==> spec_ends_with(
                        fetch,
                        games.deep_view()[i],
                        #[trigger] outcomes[i],
                    )
            },
{
    let ghost batch = games.deep_view();
    let mut engine = MetadataFetchEngine::new(games.clone());
    let ghost mut outcomes: Seq<OutcomeView> = Seq::empty();
    proof {
        lemma_start_is_bounded(batch, DEFAULT_WIDTH);
    }
    loop
        invariant
            engine.well_formed(),
            engine@.games == batch,
            engine@.next == outcomes.len(),
            count_in_flight(engine@.slots) == 0,
            forall|i: int| 0 <= i < outcomes.len() ==> engine@.slots[i] == spec_slot_of(outcomes[i]),
            forall|i: int| 0 <= i < outcomes.len() ==> spec_ends_with(fetch, batch[i], #[trigger] outcomes[i]),
            forall|game: GameLibraryRefOwned| call_requires(fetch, (game,)),
            forall|tick: FetchProgress| call_requires(on_progress, (tick,)),
        ensures
            engine.well_formed(),
            engine@.games == batch,
            outcomes.len() == batch.len(),
            forall|i: int| 0 <= i < outcomes.len() ==> engine@.slots[i] == spec_slot_of(outcomes[i]),
            forall|i: int| 0 <= i < outcomes.len() ==> spec_ends_with(fetch, batch[i], #[trigger] outcomes[i]),
        decreases batch.len() - outcomes.len(),
    {
        let ghost before = engine@;
        proof {
            engine.lemma_invariant();
        }
        match engine.next_dispatch() {
            Some((token, game)) => {
                let ghost asked = game;
                let outcome = fetch(game);
                let ghost ended = outcome@;
                proof {
                    lemma_dispatch_is_bounded(before);
                    assert(spec_ends_with(fetch, batch[token as int], ended));
                }
                match engine.complete(token, outcome) {
                    Some(tick) => {
                        on_progress(tick);
                    },
                    None => {},
                }
                proof {
                    lemma_complete_is_bounded(spec_dispatch(before), token, ended);
                    outcomes = outcomes.push(ended);
                }
            },
            None => {
                break ;
            },
        }
    }
    let found = engine.results();
    proof {
        let slots = outcomes.map_values(|outcome: OutcomeView| spec_slot_of(outcome));
        engine.lemma_invariant();
        assert(engine@.slots =~= slots);
        lemma_results_count(batch, slots);
        assert(spec_batch_of(batch, outcomes, found.deep_view()));
    }
    found
}

/// The single-game form of a fetch, run in the caller's own thread: `fetch`
/// is asked about the game once, and the answer is the metadata where the
/// fetch worked, nothing where it failed.
pub fn get_metadata<G: Fn(GameLibraryRefOwned) -> FetchOutcome>(game: GameLibraryRefOwned, fetch: G) -> (metadata:
    Option<GameMetadata>)
    requires
        call_requires(fetch, (game,)),
    ensures
        exists|ended: FetchOutcome| #[trigger]
            call_ensures(fetch, (game,), ended) && metadata.deep_view() == spec_single_result(ended@),
{
    single_result(fetch(game))
}

/// The single-game form agrees with a batch of one: the batch holds a result
/// exactly when the single form answers, and it is the same metadata.
pub proof fn lemma_single_is_batch_of_one(game: GameRefView, outcome: OutcomeView)
    ensures
        ({
            let start = spec_start(seq![game], 1);
            let ended = spec_complete(spec_dispatch(start), 0, outcome);
            spec_results(ended.games, ended.slots) == match spec_single_result(outcome) {
                Some(metadata) => seq![(game, metadata)],
                None => Seq::empty(),
            }
        }),
{
    let start = spec_start(seq![game], 1);
    let ended = spec_complete(spec_dispatch(start), 0, outcome);
    assert(ended.slots.len() == 1);
    assert(ended.games == seq![game]);
    assert(ended.slots =~= seq![spec_slot_of(outcome)]);
    assert(ended.slots.drop_last() =~= Seq::empty());
    assert(ended.games.drop_last() =~= Seq::empty());
    assert(spec_results(ended.games.drop_last(), ended.slots.drop_last()) =~= Seq::empty());
    match outcome {
        OutcomeView::Fetched(metadata) => {
            assert(spec_results(ended.games, ended.slots) =~= seq![(game, metadata)]);
        },
        OutcomeView::Failed(_) => {
            assert(spec_results(ended.games, ended.slots) =~= Seq::empty());
        },
    }
}

} // verus!
