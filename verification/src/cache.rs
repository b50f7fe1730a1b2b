//! The server's read caches: which entries exist, the operations the handlers
//! perform on them, and when the cached entries agree with the database.

use vstd::prelude::*;
use crate::db::{cards_of, columns_of, lists_cards, lists_columns, lists_kanbans, DbView};
use crate::model::{
    duplicate_cards, duplicate_columns, duplicate_kanbans, Card, CardView, Column, ColumnView,
    Kanban, KanbanView,
};
use moka::sync::Cache;

verus! {

/// One operation on the caches: dropping an entry or storing one.
#[derive(Clone, Debug)]
pub enum CacheOp {
    /// Drop the cached list of all boards.
    DropKanbanList,
    /// Drop the cached board with this identifier.
    DropKanban(String),
    /// Drop the cached column list of this board.
    DropColumnList(String),
    /// Drop the cached column with this identifier.
    DropColumn(String),
    /// Drop the cached card list of this column.
    DropCardList(String),
    /// Drop the cached card with this identifier.
    DropCard(String),
    /// Cache the list of all boards.
    StoreKanbanList(Vec<Kanban>),
    /// Cache a board under the given key.
    StoreKanban(String, Kanban),
    /// Cache the column list of the board with the given identifier.
    StoreColumnList(String, Vec<Column>),
    /// Cache a column under the given key.
    StoreColumn(String, Column),
    /// Cache the card list of the column with the given identifier.
    StoreCardList(String, Vec<Card>),
    /// Cache a card under the given key.
    StoreCard(String, Card),
}

pub enum CacheOpView {
    DropKanbanList,
    DropKanban(Seq<char>),
    DropColumnList(Seq<char>),
    DropColumn(Seq<char>),
    DropCardList(Seq<char>),
    DropCard(Seq<char>),
    StoreKanbanList(Seq<KanbanView>),
    StoreKanban(Seq<char>, KanbanView),
    StoreColumnList(Seq<char>, Seq<ColumnView>),
    StoreColumn(Seq<char>, ColumnView),
    StoreCardList(Seq<char>, Seq<CardView>),
    StoreCard(Seq<char>, CardView),
}

impl DeepView for CacheOp {
    type V = CacheOpView;

    open spec fn deep_view(&self) -> CacheOpView {
        match self {
            CacheOp::DropKanbanList => CacheOpView::DropKanbanList,
            CacheOp::DropKanban(k) => CacheOpView::DropKanban(k@),
            CacheOp::DropColumnList(k) => CacheOpView::DropColumnList(k@),
            CacheOp::DropColumn(k) => CacheOpView::DropColumn(k@),
            CacheOp::DropCardList(k) => CacheOpView::DropCardList(k@),
            CacheOp::DropCard(k) => CacheOpView::DropCard(k@),
            CacheOp::StoreKanbanList(v) => CacheOpView::StoreKanbanList(v.deep_view()),
            CacheOp::StoreKanban(k, v) => CacheOpView::StoreKanban(k@, v@),
            CacheOp::StoreColumnList(k, v) => CacheOpView::StoreColumnList(k@, v.deep_view()),
            CacheOp::StoreColumn(k, v) => CacheOpView::StoreColumn(k@, v@),
            CacheOp::StoreCardList(k, v) => CacheOpView::StoreCardList(k@, v.deep_view()),
            CacheOp::StoreCard(k, v) => CacheOpView::StoreCard(k@, v@),
        }
    }
}

/// What the six caches hold.
pub struct CacheView {
    pub kanban_list: Option<Seq<KanbanView>>,
    pub kanbans: Map<Seq<char>, KanbanView>,
    pub columns_by_kanban: Map<Seq<char>, Seq<ColumnView>>,
    pub columns: Map<Seq<char>, ColumnView>,
    pub cards_by_column: Map<Seq<char>, Seq<CardView>>,
    pub cards: Map<Seq<char>, CardView>,
}

/// The caches after one operation.
pub open spec fn apply_op(c: CacheView, op: CacheOpView) -> CacheView {
    match op {
        CacheOpView::DropKanbanList => CacheView { kanban_list: None, ..c },
        CacheOpView::DropKanban(k) => CacheView { kanbans: c.kanbans.remove(k), ..c },
        CacheOpView::DropColumnList(k) => CacheView {
            columns_by_kanban: c.columns_by_kanban.remove(k),
            ..c
        },
        CacheOpView::DropColumn(k) => CacheView { columns: c.columns.remove(k), ..c },
        CacheOpView::DropCardList(k) => CacheView {
            cards_by_column: c.cards_by_column.remove(k),
            ..c
        },
        CacheOpView::DropCard(k) => CacheView { cards: c.cards.remove(k), ..c },
        CacheOpView::StoreKanbanList(l) => CacheView { kanban_list: Some(l), ..c },
        CacheOpView::StoreKanban(k, v) => CacheView { kanbans: c.kanbans.insert(k, v), ..c },
        CacheOpView::StoreColumnList(k, l) => CacheView {
            columns_by_kanban: c.columns_by_kanban.insert(k, l),
            ..c
        },
        CacheOpView::StoreColumn(k, v) => CacheView { columns: c.columns.insert(k, v), ..c },
        CacheOpView::StoreCardList(k, l) => CacheView {
            cards_by_column: c.cards_by_column.insert(k, l),
            ..c
        },
        CacheOpView::StoreCard(k, v) => CacheView { cards: c.cards.insert(k, v), ..c },
    }
}

/// The caches after the operations, first to last.
pub open spec fn apply_ops(c: CacheView, ops: Seq<CacheOpView>) -> CacheView
    decreases ops.len(),
{
    if ops.len() == 0 {
        c
    } else {
        apply_op(apply_ops(c, ops.drop_last()), ops.last())
    }
}

/// The cached list of all boards agrees with the database.
pub open spec fn kanban_list_agrees(db: DbView, c: CacheView) -> bool {
    c.kanban_list matches Some(l) ==> lists_kanbans(l, db.kanbans)
}

/// Each cached board is the database's row under its key.
pub open spec fn kanbans_agree(db: DbView, c: CacheView) -> bool {
    forall|k: Seq<char>|
        #[trigger] c.kanbans.contains_key(k) ==> db.kanbans.contains_key(k) && db.kanbans[k]
            == c.kanbans[k]
}

/// Each cached column list lists the database's columns of that board.
pub open spec fn column_lists_agree(db: DbView, c: CacheView) -> bool {
    forall|k: Seq<char>|
        #[trigger] c.columns_by_kanban.contains_key(k) ==> lists_columns(
            c.columns_by_kanban[k],
            columns_of(db, k),
        )
}

/// Each cached column is the database's row under its key.
pub open spec fn columns_agree(db: DbView, c: CacheView) -> bool {
    forall|k: Seq<char>|
        #[trigger] c.columns.contains_key(k) ==> db.columns.contains_key(k) && db.columns[k]
            == c.columns[k]
}

/// Each cached card list lists the database's cards of that column.
pub open spec fn card_lists_agree(db: DbView, c: CacheView) -> bool {
    forall|k: Seq<char>|
        #[trigger] c.cards_by_column.contains_key(k) ==> lists_cards(
            c.cards_by_column[k],
            cards_of(db, k),
        )
}

/// Each cached card is the database's row under its key.
pub open spec fn cards_agree(db: DbView, c: CacheView) -> bool {
    forall|k: Seq<char>|
        #[trigger] c.cards.contains_key(k) ==> db.cards.contains_key(k) && db.cards[k]
            == c.cards[k]
}

/// Every cached entry is what the database would answer for it.
pub open spec fn coherent(db: DbView, c: CacheView) -> bool {
    &&& kanban_list_agrees(db, c)
    &&& kanbans_agree(db, c)
    &&& column_lists_agree(db, c)
    &&& columns_agree(db, c)
    &&& card_lists_agree(db, c)
    &&& cards_agree(db, c)
}

/// `small` holds some of the entries of `big`, unchanged.
pub open spec fn sub_cache(small: CacheView, big: CacheView) -> bool {
    &&& (small.kanban_list is Some ==> small.kanban_list == big.kanban_list)
    &&& small.kanbans.submap_of(big.kanbans)
    &&& small.columns_by_kanban.submap_of(big.columns_by_kanban)
    &&& small.columns.submap_of(big.columns)
    &&& small.cards_by_column.submap_of(big.cards_by_column)
    &&& small.cards.submap_of(big.cards)
}

/// Every operation drops an entry.
pub open spec fn only_drops(ops: Seq<CacheOpView>) -> bool {
    forall|i: int|
        0 <= i < ops.len() ==> match #[trigger] ops[i] {
            CacheOpView::DropKanbanList => true,
            CacheOpView::DropKanban(_) => true,
            CacheOpView::DropColumnList(_) => true,
            CacheOpView::DropColumn(_) => true,
            CacheOpView::DropCardList(_) => true,
            CacheOpView::DropCard(_) => true,
            _ => false,
        }
}

/// Drops of a column and of its card list, for each column listed.
pub open spec fn column_drops(columns: Seq<ColumnView>) -> Seq<CacheOpView>
    decreases columns.len(),
{
    if columns.len() == 0 {
        Seq::empty()
    } else {
        column_drops(columns.drop_last()) + seq![
            CacheOpView::DropColumn(columns.last().id),
            CacheOpView::DropCardList(columns.last().id),
        ]
    }
}

/// Drops of each card listed.
pub open spec fn card_drops(cards: Seq<CardView>) -> Seq<CacheOpView>
    decreases cards.len(),
{
    if cards.len() == 0 {
        Seq::empty()
    } else {
        card_drops(cards.drop_last()).push(CacheOpView::DropCard(cards.last().id))
    }
}

/// A column is changed or gone: drop its board's column list and the column.
pub open spec fn column_tree_drops(column: ColumnView) -> Seq<CacheOpView> {
    seq![CacheOpView::DropColumnList(column.kanban_id), CacheOpView::DropColumn(column.id)]
}

/// A card is changed or gone: drop its column's card list and the card.
pub open spec fn card_tree_drops(card: CardView) -> Seq<CacheOpView> {
    seq![CacheOpView::DropCardList(card.column_id), CacheOpView::DropCard(card.id)]
}

/// After the list of all boards was read from the database.
pub open spec fn kanbans_listed_plan(rows: Seq<KanbanView>) -> Seq<CacheOpView> {
    seq![CacheOpView::StoreKanbanList(rows)]
}

/// After a board was read from the database under `id`.
pub open spec fn kanban_read_plan(id: Seq<char>, row: KanbanView) -> Seq<CacheOpView> {
    seq![CacheOpView::StoreKanban(id, row)]
}

/// After a board was inserted.
pub open spec fn kanban_created_plan(k: KanbanView) -> Seq<CacheOpView> {
    seq![CacheOpView::DropKanbanList, CacheOpView::StoreKanban(k.id, k)]
}

/// After the board `id` was updated to `k`.
pub open spec fn kanban_updated_plan(id: Seq<char>, k: KanbanView) -> Seq<CacheOpView> {
    seq![CacheOpView::DropKanbanList, CacheOpView::StoreKanban(id, k)]
}

/// After the board `id` was deleted, whose columns and cards were those given.
pub open spec fn kanban_deleted_plan(
    id: Seq<char>,
    columns: Seq<ColumnView>,
    cards: Seq<CardView>,
) -> Seq<CacheOpView> {
    seq![
        CacheOpView::DropKanbanList,
        CacheOpView::DropKanban(id),
        CacheOpView::DropColumnList(id),
    ] + column_drops(columns) + card_drops(cards)
}

/// After the columns of board `kanban_id` were read from the database.
pub open spec fn columns_listed_plan(kanban_id: Seq<char>, rows: Seq<ColumnView>) -> Seq<
    CacheOpView,
> {
    seq![CacheOpView::StoreColumnList(kanban_id, rows)]
}

/// After a column was read from the database under `id`.
pub open spec fn column_read_plan(id: Seq<char>, row: ColumnView) -> Seq<CacheOpView> {
    seq![CacheOpView::StoreColumn(id, row)]
}

/// After a column was inserted.
pub open spec fn column_created_plan(c: ColumnView) -> Seq<CacheOpView> {
    seq![CacheOpView::DropColumnList(c.kanban_id), CacheOpView::StoreColumn(c.id, c)]
}

/// After the column `id` was updated to `c`.
pub open spec fn column_updated_plan(id: Seq<char>, c: ColumnView) -> Seq<CacheOpView> {
    column_tree_drops(c).push(CacheOpView::StoreColumn(id, c))
}

/// After the column `id` (which was `column`) was deleted with the cards given.
pub open spec fn column_deleted_plan(
    id: Seq<char>,
    column: ColumnView,
    cards: Seq<CardView>,
) -> Seq<CacheOpView> {
    column_tree_drops(column).push(CacheOpView::DropCardList(id)) + card_drops(cards)
}

/// After the cards of column `column_id` were read from the database.
pub open spec fn cards_listed_plan(column_id: Seq<char>, rows: Seq<CardView>) -> Seq<
    CacheOpView,
> {
    seq![CacheOpView::StoreCardList(column_id, rows)]
}

/// After a card was read from the database under `id`.
pub open spec fn card_read_plan(id: Seq<char>, row: CardView) -> Seq<CacheOpView> {
    seq![CacheOpView::StoreCard(id, row)]
}

/// After a card was inserted.
pub open spec fn card_created_plan(c: CardView) -> Seq<CacheOpView> {
    seq![CacheOpView::DropCardList(c.column_id), CacheOpView::StoreCard(c.id, c)]
}

/// After the card `id` was updated to `c`.
pub open spec fn card_updated_plan(id: Seq<char>, c: CardView) -> Seq<CacheOpView> {
    card_tree_drops(c).push(CacheOpView::StoreCard(id, c))
}

/// After a card (which was `card`) was deleted.
pub open spec fn card_deleted_plan(card: CardView) -> Seq<CacheOpView> {
    card_tree_drops(card)
}


/// How long a cached entry lives, in seconds.
pub const CACHE_TTL_SECS: u64 = 30;

/// The key under which the list of all boards is cached.
pub const KANBAN_LIST_KEY: &'static str = "kanbans:list";

#[verifier::external_type_specification]
#[verifier::external_body]
#[verifier::reject_recursive_types(K)]
#[verifier::reject_recursive_types(V)]
#[verifier::reject_recursive_types(S)]
pub struct ExCache<K, V, S>(Cache<K, V, S>);

/// A moka cache keyed by text, with what it may hold: `held` maps each key to
/// the value last stored under it and not dropped since. The cache may lose an
/// entry at any time (its time-to-live ran out, or it was evicted), so a
/// lookup may miss; it never answers a value other than the held one.
#[verifier::reject_recursive_types(V)]
struct HeldCache<V: DeepView> {
    entries: Cache<String, V>,
    held: Ghost<Map<Seq<char>, V::V>>,
}

impl<V: DeepView + Clone + Send + Sync + 'static> HeldCache<V> {
    /// `moka::sync::Cache::get`: a clone of the value cached under `key`, if one
    /// is there and has not expired or been evicted. Claimed: a value returned
    /// is the one held under `key` (the value types cached here derive `Clone`,
    /// so a clone has the same deep view). Whether it misses is not stated: that
    /// depends on the time of the call and on the cache's eviction.
    #[verifier::external_body]
    fn get(&self, key: &str) -> (r: Option<V>)
        ensures
            r matches Some(v) ==> self.held@.contains_key(key@) && self.held@[key@]
                == v.deep_view(),
    {
        self.entries.get(key)
    }

    /// `moka::sync::Cache::insert`: caches `value` under `key`, replacing any
    /// value there. Claimed: the value is then the one held under `key`, and
    /// the cache handle and its configuration are unchanged.
    #[verifier::external_body]
    fn insert(&mut self, key: String, value: V)
        ensures
            final(self).entries == old(self).entries,
            final(self).held@ == old(self).held@.insert(key@, value.deep_view()),
    {
        self.entries.insert(key, value)
    }

    /// `moka::sync::Cache::invalidate`: discards any value cached under `key`.
    /// Claimed: nothing is held under `key` any more, and the cache handle and
    /// its configuration are unchanged.
    #[verifier::external_body]
    fn invalidate(&mut self, key: &str)
        ensures
            final(self).entries == old(self).entries,
            final(self).held@ == old(self).held@.remove(key@),
    {
        self.entries.invalidate(key)
    }
}

/// The time-to-live (whole seconds) and the most entries that a cache of
/// the list of all boards was built with.
pub uninterp spec fn kanban_list_cache_limits(c: Cache<String, Vec<Kanban>>) -> (u64, u64);

/// Builds a cache of the list of all boards with `moka::sync::Cache::builder()`,
/// `time_to_live(Duration::from_secs(ttl_secs))`, `max_capacity(max_capacity)`
/// and `build()`. Claimed: the cache is configured with these two limits (as
/// its `policy()` reports them) and holds nothing yet. `build` panics where the
/// time-to-live exceeds 1000 years (365-day years), which `requires` leaves out.
#[verifier::external_body]
fn build_kanban_list_cache(ttl_secs: u64, max_capacity: u64) -> (c: HeldCache<Vec<Kanban>>)
    requires
        ttl_secs <= 31_536_000_000,
    ensures
        kanban_list_cache_limits(c.entries) == (ttl_secs, max_capacity),
        c.held@.dom() == Set::<Seq<char>>::empty(),
{
    let entries = Cache::builder().time_to_live(std::time::Duration::from_secs(ttl_secs))
        .max_capacity(max_capacity).build();
    HeldCache { entries, held: Ghost(Map::empty()) }
}

/// The time-to-live (whole seconds) and the most entries that a cache of
/// boards was built with.
pub uninterp spec fn kanbans_cache_limits(c: Cache<String, Kanban>) -> (u64, u64);

/// Builds a cache of boards with `moka::sync::Cache::builder()`,
/// `time_to_live(Duration::from_secs(ttl_secs))`, `max_capacity(max_capacity)`
/// and `build()`. Claimed: the cache is configured with these two limits (as
/// its `policy()` reports them) and holds nothing yet. `build` panics where the
/// time-to-live exceeds 1000 years (365-day years), which `requires` leaves out.
#[verifier::external_body]
fn build_kanbans_cache(ttl_secs: u64, max_capacity: u64) -> (c: HeldCache<Kanban>)
    requires
        ttl_secs <= 31_536_000_000,
    ensures
        kanbans_cache_limits(c.entries) == (ttl_secs, max_capacity),
        c.held@.dom() == Set::<Seq<char>>::empty(),
{
    let entries = Cache::builder().time_to_live(std::time::Duration::from_secs(ttl_secs))
        .max_capacity(max_capacity).build();
    HeldCache { entries, held: Ghost(Map::empty()) }
}

/// The time-to-live (whole seconds) and the most entries that a cache of
/// column lists was built with.
pub uninterp spec fn column_lists_cache_limits(c: Cache<String, Vec<Column>>) -> (u64, u64);

/// Builds a cache of column lists with `moka::sync::Cache::builder()`,
/// `time_to_live(Duration::from_secs(ttl_secs))`, `max_capacity(max_capacity)`
/// and `build()`. Claimed: the cache is configured with these two limits (as
/// its `policy()` reports them) and holds nothing yet. `build` panics where the
/// time-to-live exceeds 1000 years (365-day years), which `requires` leaves out.
#[verifier::external_body]
fn build_column_lists_cache(ttl_secs: u64, max_capacity: u64) -> (c: HeldCache<Vec<Column>>)
    requires
        ttl_secs <= 31_536_000_000,
    ensures
        column_lists_cache_limits(c.entries) == (ttl_secs, max_capacity),
        c.held@.dom() == Set::<Seq<char>>::empty(),
{
    let entries = Cache::builder().time_to_live(std::time::Duration::from_secs(ttl_secs))
        .max_capacity(max_capacity).build();
    HeldCache { entries, held: Ghost(Map::empty()) }
}

/// The time-to-live (whole seconds) and the most entries that a cache of
/// columns was built with.
pub uninterp spec fn columns_cache_limits(c: Cache<String, Column>) -> (u64, u64);

/// Builds a cache of columns with `moka::sync::Cache::builder()`,
/// `time_to_live(Duration::from_secs(ttl_secs))`, `max_capacity(max_capacity)`
/// and `build()`. Claimed: the cache is configured with these two limits (as
/// its `policy()` reports them) and holds nothing yet. `build` panics where the
/// time-to-live exceeds 1000 years (365-day years), which `requires` leaves out.
#[verifier::external_body]
fn build_columns_cache(ttl_secs: u64, max_capacity: u64) -> (c: HeldCache<Column>)
    requires
        ttl_secs <= 31_536_000_000,
    ensures
        columns_cache_limits(c.entries) == (ttl_secs, max_capacity),
        c.held@.dom() == Set::<Seq<char>>::empty(),
{
    let entries = Cache::builder().time_to_live(std::time::Duration::from_secs(ttl_secs))
        .max_capacity(max_capacity).build();
    HeldCache { entries, held: Ghost(Map::empty()) }
}

/// The time-to-live (whole seconds) and the most entries that a cache of
/// card lists was built with.
pub uninterp spec fn card_lists_cache_limits(c: Cache<String, Vec<Card>>) -> (u64, u64);

/// Builds a cache of card lists with `moka::sync::Cache::builder()`,
/// `time_to_live(Duration::from_secs(ttl_secs))`, `max_capacity(max_capacity)`
/// and `build()`. Claimed: the cache is configured with these two limits (as
/// its `policy()` reports them) and holds nothing yet. `build` panics where the
/// time-to-live exceeds 1000 years (365-day years), which `requires` leaves out.
#[verifier::external_body]
fn build_card_lists_cache(ttl_secs: u64, max_capacity: u64) -> (c: HeldCache<Vec<Card>>)
    requires
        ttl_secs <= 31_536_000_000,
    ensures
        card_lists_cache_limits(c.entries) == (ttl_secs, max_capacity),
        c.held@.dom() == Set::<Seq<char>>::empty(),
{
    let entries = Cache::builder().time_to_live(std::time::Duration::from_secs(ttl_secs))
        .max_capacity(max_capacity).build();
    HeldCache { entries, held: Ghost(Map::empty()) }
}

/// The time-to-live (whole seconds) and the most entries that a cache of
/// cards was built with.
pub uninterp spec fn cards_cache_limits(c: Cache<String, Card>) -> (u64, u64);

/// Builds a cache of cards with `moka::sync::Cache::builder()`,
/// `time_to_live(Duration::from_secs(ttl_secs))`, `max_capacity(max_capacity)`
/// and `build()`. Claimed: the cache is configured with these two limits (as
/// its `policy()` reports them) and holds nothing yet. `build` panics where the
/// time-to-live exceeds 1000 years (365-day years), which `requires` leaves out.
#[verifier::external_body]
fn build_cards_cache(ttl_secs: u64, max_capacity: u64) -> (c: HeldCache<Card>)
    requires
        ttl_secs <= 31_536_000_000,
    ensures
        cards_cache_limits(c.entries) == (ttl_secs, max_capacity),
        c.held@.dom() == Set::<Seq<char>>::empty(),
{
    let entries = Cache::builder().time_to_live(std::time::Duration::from_secs(ttl_secs))
        .max_capacity(max_capacity).build();
    HeldCache { entries, held: Ghost(Map::empty()) }
}

/// Where a cache operation lands: the cache, the key, and for a store the
/// value stored.
#[derive(Clone, Debug)]
pub enum CacheWrite {
    /// Drop the entry under the key from the cache.
    Drop(CacheSlot, String),
    PutKanbanList(String, Vec<Kanban>),
    PutKanban(String, Kanban),
    PutColumnList(String, Vec<Column>),
    PutColumn(String, Column),
    PutCardList(String, Vec<Card>),
    PutCard(String, Card),
}

/// The cache, key and value each operation addresses: each drop goes to the
/// cache of its kind under its key, and each store puts its value under its
/// key; the list of all boards lives under `KANBAN_LIST_KEY`.
pub fn cache_write(op: &CacheOp) -> (w: CacheWrite)
    ensures
        match op.deep_view() {
            CacheOpView::DropKanbanList => w matches CacheWrite::Drop(s, k) && s
                == CacheSlot::KanbanList && k@ == KANBAN_LIST_KEY@,
            CacheOpView::DropKanban(k0) => w matches CacheWrite::Drop(s, k) && s == CacheSlot::Kanbans
                && k@ == k0,
            CacheOpView::DropColumnList(k0) => w matches CacheWrite::Drop(s, k) && s
                == CacheSlot::ColumnLists && k@ == k0,
            CacheOpView::DropColumn(k0) => w matches CacheWrite::Drop(s, k) && s == CacheSlot::Columns
                && k@ == k0,
            CacheOpView::DropCardList(k0) => w matches CacheWrite::Drop(s, k) && s
                == CacheSlot::CardLists && k@ == k0,
            CacheOpView::DropCard(k0) => w matches CacheWrite::Drop(s, k) && s == CacheSlot::Cards
                && k@ == k0,
            CacheOpView::StoreKanbanList(l) => w matches CacheWrite::PutKanbanList(k, v) && k@
                == KANBAN_LIST_KEY@ && v.deep_view() == l,
            CacheOpView::StoreKanban(k0, v0) => w matches CacheWrite::PutKanban(k, v) && k@ == k0
                && v@ == v0,
            CacheOpView::StoreColumnList(k0, l) => w matches CacheWrite::PutColumnList(k, v) && k@
                == k0 && v.deep_view() == l,
            CacheOpView::StoreColumn(k0, v0) => w matches CacheWrite::PutColumn(k, v) && k@ == k0
                && v@ == v0,
            CacheOpView::StoreCardList(k0, l) => w matches CacheWrite::PutCardList(k, v) && k@ == k0
                && v.deep_view() == l,
            CacheOpView::StoreCard(k0, v0) => w matches CacheWrite::PutCard(k, v) && k@ == k0 && v@
                == v0,
        },
{
    match op {
        CacheOp::DropKanbanList => CacheWrite::Drop(
            CacheSlot::KanbanList,
            String::from_str(KANBAN_LIST_KEY),
        ),
        CacheOp::DropKanban(k) => CacheWrite::Drop(CacheSlot::Kanbans, k.clone()),
        CacheOp::DropColumnList(k) => CacheWrite::Drop(CacheSlot::ColumnLists, k.clone()),
        CacheOp::DropColumn(k) => CacheWrite::Drop(CacheSlot::Columns, k.clone()),
        CacheOp::DropCardList(k) => CacheWrite::Drop(CacheSlot::CardLists, k.clone()),
        CacheOp::DropCard(k) => CacheWrite::Drop(CacheSlot::Cards, k.clone()),
        CacheOp::StoreKanbanList(v) => CacheWrite::PutKanbanList(
            String::from_str(KANBAN_LIST_KEY),
            duplicate_kanbans(v),
        ),
        CacheOp::StoreKanban(k, v) => CacheWrite::PutKanban(k.clone(), v.duplicate()),
        CacheOp::StoreColumnList(k, v) => CacheWrite::PutColumnList(k.clone(), duplicate_columns(v)),
        CacheOp::StoreColumn(k, v) => CacheWrite::PutColumn(k.clone(), v.duplicate()),
        CacheOp::StoreCardList(k, v) => CacheWrite::PutCardList(k.clone(), duplicate_cards(v)),
        CacheOp::StoreCard(k, v) => CacheWrite::PutCard(k.clone(), v.duplicate()),
    }
}

/// The six read caches of the server. Its view is what the caches may hold:
/// a lookup answers a held entry or misses.
pub struct AppCache {
    kanban_list: HeldCache<Vec<Kanban>>,
    kanbans: HeldCache<Kanban>,
    columns_by_kanban: HeldCache<Vec<Column>>,
    columns: HeldCache<Column>,
    cards_by_column: HeldCache<Vec<Card>>,
    cards: HeldCache<Card>,
}

impl View for AppCache {
    type V = CacheView;

    closed spec fn view(&self) -> CacheView {
        CacheView {
            kanban_list: if self.kanban_list.held@.contains_key(KANBAN_LIST_KEY@) {
                Some(self.kanban_list.held@[KANBAN_LIST_KEY@])
            } else {
                None
            },
            kanbans: self.kanbans.held@,
            columns_by_kanban: self.columns_by_kanban.held@,
            columns: self.columns.held@,
            cards_by_column: self.cards_by_column.held@,
            cards: self.cards.held@,
        }
    }
}

/// The caches after dropping the entry under `key` from the cache `slot` (the
/// list of all boards has the single key `KANBAN_LIST_KEY`).
pub open spec fn drop_from(c: CacheView, slot: CacheSlot, key: Seq<char>) -> CacheView {
    match slot {
        CacheSlot::KanbanList => apply_op(c, CacheOpView::DropKanbanList),
        CacheSlot::Kanbans => apply_op(c, CacheOpView::DropKanban(key)),
        CacheSlot::ColumnLists => apply_op(c, CacheOpView::DropColumnList(key)),
        CacheSlot::Columns => apply_op(c, CacheOpView::DropColumn(key)),
        CacheSlot::CardLists => apply_op(c, CacheOpView::DropCardList(key)),
        CacheSlot::Cards => apply_op(c, CacheOpView::DropCard(key)),
    }
}

/// The caches that a new server starts with: all empty.
pub open spec fn empty_caches() -> CacheView {
    CacheView {
        kanban_list: None,
        kanbans: Map::empty(),
        columns_by_kanban: Map::empty(),
        columns: Map::empty(),
        cards_by_column: Map::empty(),
        cards: Map::empty(),
    }
}

/// The most entries each cache holds.
pub open spec fn capacity_of(slot: CacheSlot) -> u64 {
    match slot {
        CacheSlot::KanbanList => 64,
        CacheSlot::Kanbans => 1024,
        CacheSlot::ColumnLists => 256,
        CacheSlot::Columns => 2048,
        CacheSlot::CardLists => 1024,
        CacheSlot::Cards => 8192,
    }
}

/// The six caches.
#[derive(Clone, Copy, Debug, PartialEq, Eq, Structural)]
pub enum CacheSlot {
    KanbanList,
    Kanbans,
    ColumnLists,
    Columns,
    CardLists,
    Cards,
}

/// The most entries the given cache holds.
pub fn capacity(slot: CacheSlot) -> (n: u64)
    ensures
        n == capacity_of(slot),
{
    match slot {
        CacheSlot::KanbanList => 64,
        CacheSlot::Kanbans => 1024,
        CacheSlot::ColumnLists => 256,
        CacheSlot::Columns => 2048,
        CacheSlot::CardLists => 1024,
        CacheSlot::Cards => 8192,
    }
}

impl AppCache {
    /// The time-to-live (whole seconds) and the most entries of one of the caches.
    pub closed spec fn limits(&self, slot: CacheSlot) -> (u64, u64) {
        match slot {
            CacheSlot::KanbanList => kanban_list_cache_limits(self.kanban_list.entries),
            CacheSlot::Kanbans => kanbans_cache_limits(self.kanbans.entries),
            CacheSlot::ColumnLists => column_lists_cache_limits(self.columns_by_kanban.entries),
            CacheSlot::Columns => columns_cache_limits(self.columns.entries),
            CacheSlot::CardLists => card_lists_cache_limits(self.cards_by_column.entries),
            CacheSlot::Cards => cards_cache_limits(self.cards.entries),
        }
    }

    /// `self` and `other` are configured alike: the same limits on each cache.
    pub open spec fn same_limits(&self, other: &AppCache) -> bool {
        forall|slot: CacheSlot| #[trigger] self.limits(slot) == other.limits(slot)
    }

    /// Six empty caches whose entries live `CACHE_TTL_SECS` seconds, each
    /// bounded by its `capacity`.
    pub fn new() -> (c: AppCache)
        ensures
            c@ == empty_caches(),
            forall|slot: CacheSlot| #[trigger] c.limits(slot) == (CACHE_TTL_SECS, capacity_of(slot)),
    {
        let c = AppCache {
            kanban_list: build_kanban_list_cache(CACHE_TTL_SECS, capacity(CacheSlot::KanbanList)),
            kanbans: build_kanbans_cache(CACHE_TTL_SECS, capacity(CacheSlot::Kanbans)),
            columns_by_kanban: build_column_lists_cache(
                CACHE_TTL_SECS,
                capacity(CacheSlot::ColumnLists),
            ),
            columns: build_columns_cache(CACHE_TTL_SECS, capacity(CacheSlot::Columns)),
            cards_by_column: build_card_lists_cache(CACHE_TTL_SECS, capacity(CacheSlot::CardLists)),
            cards: build_cards_cache(CACHE_TTL_SECS, capacity(CacheSlot::Cards)),
        };
        assert(!c.kanban_list.held@.dom().contains(KANBAN_LIST_KEY@));
        assert(c.kanbans.held@ =~= Map::empty());
        assert(c.columns_by_kanban.held@ =~= Map::empty());
        assert(c.columns.held@ =~= Map::empty());
        assert(c.cards_by_column.held@ =~= Map::empty());
        assert(c.cards.held@ =~= Map::empty());
        c
    }

    /// The cached list of all boards, if it is still there.
    pub fn cached_kanban_list(&self) -> (r: Option<Vec<Kanban>>)
        ensures
            r matches Some(v) ==> self@.kanban_list == Some(v.deep_view()),
    {
        self.kanban_list.get(KANBAN_LIST_KEY)
    }

    /// The cached board with this identifier, if it is still there.
    pub fn cached_kanban(&self, id: &str) -> (r: Option<Kanban>)
        ensures
            r matches Some(k) ==> self@.kanbans.contains_key(id@) && self@.kanbans[id@] == k@,
    {
        self.kanbans.get(id)
    }

    /// The cached column list of this board, if it is still there.
    pub fn cached_column_list(&self, kanban_id: &str) -> (r: Option<Vec<Column>>)
        ensures
            r matches Some(v) ==> self@.columns_by_kanban.contains_key(kanban_id@)
                && self@.columns_by_kanban[kanban_id@] == v.deep_view(),
    {
        self.columns_by_kanban.get(kanban_id)
    }

    /// The cached column with this identifier, if it is still there.
    pub fn cached_column(&self, id: &str) -> (r: Option<Column>)
        ensures
            r matches Some(c) ==> self@.columns.contains_key(id@) && self@.columns[id@] == c@,
    {
        self.columns.get(id)
    }

    /// The cached card list of this column, if it is still there.
    pub fn cached_card_list(&self, column_id: &str) -> (r: Option<Vec<Card>>)
        ensures
            r matches Some(v) ==> self@.cards_by_column.contains_key(column_id@)
                && self@.cards_by_column[column_id@] == v.deep_view(),
    {
        self.cards_by_column.get(column_id)
    }

    /// The cached card with this identifier, if it is still there.
    pub fn cached_card(&self, id: &str) -> (r: Option<Card>)
        ensures
            r matches Some(c) ==> self@.cards.contains_key(id@) && self@.cards[id@] == c@,
    {
        self.cards.get(id)
    }

    /// Drops the cached list of all boards.
    pub fn invalidate_kanban_list(&mut self)
        ensures
            final(self)@ == apply_op(old(self)@, CacheOpView::DropKanbanList),
            final(self).same_limits(old(self)),
    {
        self.kanban_list.invalidate(KANBAN_LIST_KEY);
        assert(self@ =~= apply_op(old(self)@, CacheOpView::DropKanbanList));
    }

    /// Drops the cached board.
    pub fn invalidate_kanban(&mut self, kanban_id: &str)
        ensures
            final(self)@ == apply_op(old(self)@, CacheOpView::DropKanban(kanban_id@)),
            final(self).same_limits(old(self)),
    {
        self.kanbans.invalidate(kanban_id);
        assert(self@ =~= apply_op(old(self)@, CacheOpView::DropKanban(kanban_id@)));
    }

    /// Drops the cached column list of the board.
    pub fn invalidate_column_list(&mut self, kanban_id: &str)
        ensures
            final(self)@ == apply_op(old(self)@, CacheOpView::DropColumnList(kanban_id@)),
            final(self).same_limits(old(self)),
    {
        self.columns_by_kanban.invalidate(kanban_id);
        assert(self@ =~= apply_op(old(self)@, CacheOpView::DropColumnList(kanban_id@)));
    }

    /// Drops the cached column.
    pub fn invalidate_column(&mut self, column_id: &str)
        ensures
            final(self)@ == apply_op(old(self)@, CacheOpView::DropColumn(column_id@)),
            final(self).same_limits(old(self)),
    {
        self.columns.invalidate(column_id);
        assert(self@ =~= apply_op(old(self)@, CacheOpView::DropColumn(column_id@)));
    }

    /// Drops the cached card list of the column.
    pub fn invalidate_card_list(&mut self, column_id: &str)
        ensures
            final(self)@ == apply_op(old(self)@, CacheOpView::DropCardList(column_id@)),
            final(self).same_limits(old(self)),
    {
        self.cards_by_column.invalidate(column_id);
        assert(self@ =~= apply_op(old(self)@, CacheOpView::DropCardList(column_id@)));
    }

    /// Drops the cached card.
    pub fn invalidate_card(&mut self, card_id: &str)
        ensures
            final(self)@ == apply_op(old(self)@, CacheOpView::DropCard(card_id@)),
            final(self).same_limits(old(self)),
    {
        self.cards.invalidate(card_id);
        assert(self@ =~= apply_op(old(self)@, CacheOpView::DropCard(card_id@)));
    }

    /// Drops what a change to the column makes stale: its board's column list
    /// and the column (the operations of `column_tree_drops`).
    pub fn invalidate_column_tree(&mut self, column: &Column)
        ensures
            final(self)@ == apply_op(
                apply_op(old(self)@, CacheOpView::DropColumnList(column.kanban_id@)),
                CacheOpView::DropColumn(column.id@),
            ),
            final(self).same_limits(old(self)),
    {
        self.invalidate_column_list(column.kanban_id.as_str());
        self.invalidate_column(column.id.as_str());
    }

    /// Drops what a change to the card makes stale: its column's card list and
    /// the card (the operations of `card_tree_drops`).
    pub fn invalidate_card_tree(&mut self, card: &Card)
        ensures
            final(self)@ == apply_op(
                apply_op(old(self)@, CacheOpView::DropCardList(card.column_id@)),
                CacheOpView::DropCard(card.id@),
            ),
            final(self).same_limits(old(self)),
    {
        self.invalidate_card_list(card.column_id.as_str());
        self.invalidate_card(card.id.as_str());
    }

    /// Drops the entry under `key` from the cache `slot` (the list of all
    /// boards has the single key `KANBAN_LIST_KEY`).
    pub fn drop_entry(&mut self, slot: CacheSlot, key: &str)
        ensures
            final(self)@ == drop_from(old(self)@, slot, key@),
            final(self).same_limits(old(self)),
    {
        match slot {
            CacheSlot::KanbanList => self.invalidate_kanban_list(),
            CacheSlot::Kanbans => self.invalidate_kanban(key),
            CacheSlot::ColumnLists => self.invalidate_column_list(key),
            CacheSlot::Columns => self.invalidate_column(key),
            CacheSlot::CardLists => self.invalidate_card_list(key),
            CacheSlot::Cards => self.invalidate_card(key),
        }
    }

    /// Performs one cache operation on the cache, key and value that
    /// `cache_write` routes it to.
    pub fn perform(&mut self, op: &CacheOp)
        ensures
            final(self)@ == apply_op(old(self)@, op.deep_view()),
            final(self).same_limits(old(self)),
    {
        let w = cache_write(op);
        match w {
            CacheWrite::Drop(slot, key) => self.drop_entry(slot, key.as_str()),
            CacheWrite::PutKanbanList(key, v) => self.kanban_list.insert(key, v),
            CacheWrite::PutKanban(key, v) => self.kanbans.insert(key, v),
            CacheWrite::PutColumnList(key, v) => self.columns_by_kanban.insert(key, v),
            CacheWrite::PutColumn(key, v) => self.columns.insert(key, v),
            CacheWrite::PutCardList(key, v) => self.cards_by_column.insert(key, v),
            CacheWrite::PutCard(key, v) => self.cards.insert(key, v),
        }
        assert(self@ =~= apply_op(old(self)@, op.deep_view()));
    }

    /// Performs the operations in order, first to last.
    pub fn apply(&mut self, ops: &Vec<CacheOp>)
        ensures
            final(self)@ == apply_ops(old(self)@, ops.deep_view()),
            final(self).same_limits(old(self)),
    {
        let ghost start = *self;
        let ghost dv = ops.deep_view();
        let mut i: usize = 0;
        assert(dv.take(0) =~= Seq::<CacheOpView>::empty());
        while i < ops.len()
            invariant
                i <= ops.len(),
                dv == ops.deep_view(),
                self@ == apply_ops(start@, dv.take(i as int)),
                self.same_limits(&start),
            decreases ops.len() - i,
        {
            self.perform(&ops[i]);
            assert(dv.take(i + 1).drop_last() =~= dv.take(i as int));
            assert(dv[i as int] == ops[i as int].deep_view());
            i = i + 1;
        }
        assert(dv.take(ops.len() as int) =~= dv);
    }
}

} // verus!
