//! Laws of the server, stated over what its six read caches may hold
//! (`CacheView`, the view of `AppCache`) and over its database (`DbView`):
//! every handler, started from caches that agree with the database, leaves
//! caches that agree with the database as its statements left it; a failing
//! step changes no cache; a hit answers as the database would; a new column
//! or card goes last; repeating an update changes nothing more; and a read
//! after a write sees the write. `exchange::advance` carries out exactly the
//! operations of `step_cache_ops` on the server's caches, so these laws hold
//! of them.

use vstd::prelude::*;
use crate::cache::{
    apply_op, apply_ops, card_deleted_plan, card_drops, card_read_plan, card_created_plan,
    card_updated_plan, cards_listed_plan, coherent, column_created_plan,
    column_deleted_plan, column_drops, column_read_plan, column_updated_plan,
    columns_listed_plan, kanban_created_plan, kanban_deleted_plan, kanban_read_plan,
    kanban_updated_plan, kanbans_listed_plan, only_drops, sub_cache, empty_caches, AppCache,
    CacheOpView, CacheView,
};
use crate::db::{
    cards_of, cards_of_kanban, columns_of, db_well_formed, delete_card_row, delete_column_row,
    delete_kanban_row, holds_cards, holds_columns, insert_card, insert_column, insert_kanban, lists_cards,
    lists_columns, lists_kanbans, update_card_row, update_column_row, update_kanban_row, DbView,
};
use crate::exchange::{
    answer_of_hit, awaits, hit_fits, hit_held, step_cache_ops, transition, Action, CacheHit, Event,
    Reply, Request, Stage,
};
use crate::status::ApiStatus;
use crate::handlers::delete_answer;
use crate::model::{
    Card, Column, card_after_update, column_after_update, kanban_after_update, CardView, ColumnView,
    CreateCard, CreateColumn, Fresh, KanbanView, UpdateCard, UpdateColumn, UpdateKanban,
};

verus! {

proof fn lemma_apply_push(c: CacheView, ops: Seq<CacheOpView>, op: CacheOpView)
    ensures
        apply_ops(c, ops.push(op)) == apply_op(apply_ops(c, ops), op),
{
    assert(ops.push(op).drop_last() =~= ops);
}

/// Applying only drops keeps some of the entries, unchanged, and none that an
/// operation dropped.
proof fn lemma_apply_drops(c: CacheView, ops: Seq<CacheOpView>)
    requires
        only_drops(ops),
    ensures
        sub_cache(apply_ops(c, ops), c),
        apply_ops(c, ops).kanban_list is Some ==> !ops.contains(CacheOpView::DropKanbanList),
        forall|k: Seq<char>|
            #[trigger] apply_ops(c, ops).kanbans.contains_key(k) ==> !ops.contains(
                CacheOpView::DropKanban(k),
            ),
        forall|k: Seq<char>|
            #[trigger] apply_ops(c, ops).columns_by_kanban.contains_key(k) ==> !ops.contains(
                CacheOpView::DropColumnList(k),
            ),
        forall|k: Seq<char>|
            #[trigger] apply_ops(c, ops).columns.contains_key(k) ==> !ops.contains(
                CacheOpView::DropColumn(k),
            ),
        forall|k: Seq<char>|
            #[trigger] apply_ops(c, ops).cards_by_column.contains_key(k) ==> !ops.contains(
                CacheOpView::DropCardList(k),
            ),
        forall|k: Seq<char>|
            #[trigger] apply_ops(c, ops).cards.contains_key(k) ==> !ops.contains(
                CacheOpView::DropCard(k),
            ),
    decreases ops.len(),
{
    if ops.len() > 0 {
        let prev = ops.drop_last();
        let last = ops.last();
        assert forall|i: int| 0 <= i < prev.len() implies match #[trigger] prev[i] {
            CacheOpView::DropKanbanList => true,
            CacheOpView::DropKanban(_) => true,
            CacheOpView::DropColumnList(_) => true,
            CacheOpView::DropColumn(_) => true,
            CacheOpView::DropCardList(_) => true,
            CacheOpView::DropCard(_) => true,
            _ => false,
        } by {
            assert(prev[i] == ops[i]);
        }
        lemma_apply_drops(c, prev);
        assert(ops =~= prev.push(last));
        let p = apply_ops(c, prev);
        let r = apply_ops(c, ops);
        assert(r == apply_op(p, last));
        assert(only_drops(ops));
        assert(match ops[ops.len() - 1] {
            CacheOpView::DropKanbanList => true,
            CacheOpView::DropKanban(_) => true,
            CacheOpView::DropColumnList(_) => true,
            CacheOpView::DropColumn(_) => true,
            CacheOpView::DropCardList(_) => true,
            CacheOpView::DropCard(_) => true,
            _ => false,
        });
        assert forall|x: CacheOpView| ops.contains(x) implies prev.contains(x) || x == last by {
            let i = choose|i: int| 0 <= i < ops.len() && ops[i] == x;
            if i < ops.len() - 1 {
                assert(prev[i] == x);
            }
        }
        assert(r.kanbans.submap_of(p.kanbans));
        assert(r.columns_by_kanban.submap_of(p.columns_by_kanban));
        assert(r.columns.submap_of(p.columns));
        assert(r.cards_by_column.submap_of(p.cards_by_column));
        assert(r.cards.submap_of(p.cards));
    }
}

/// A cache that holds some of the entries of an agreeing cache agrees too: an
/// entry that expires or is evicted never makes the caches disagree.
pub proof fn law_evictions_keep_agreement(db: DbView, small: CacheView, big: CacheView)
    requires
        coherent(db, big),
        sub_cache(small, big),
    ensures
        coherent(db, small),
{
    assert forall|k: Seq<char>| #[trigger] small.kanbans.contains_key(k) implies db.kanbans.contains_key(k) && db.kanbans[k] == small.kanbans[k] by {
        assert(big.kanbans.contains_key(k));
    }
    assert forall|k: Seq<char>| #[trigger] small.columns_by_kanban.contains_key(k) implies lists_columns(small.columns_by_kanban[k], columns_of(db, k)) by {
        assert(big.columns_by_kanban.contains_key(k));
    }
    assert forall|k: Seq<char>| #[trigger] small.columns.contains_key(k) implies db.columns.contains_key(k) && db.columns[k] == small.columns[k] by {
        assert(big.columns.contains_key(k));
    }
    assert forall|k: Seq<char>| #[trigger] small.cards_by_column.contains_key(k) implies lists_cards(small.cards_by_column[k], cards_of(db, k)) by {
        assert(big.cards_by_column.contains_key(k));
    }
    assert forall|k: Seq<char>| #[trigger] small.cards.contains_key(k) implies db.cards.contains_key(k) && db.cards[k] == small.cards[k] by {
        assert(big.cards.contains_key(k));
    }
}


proof fn lemma_apply_one(c: CacheView, op: CacheOpView)
    ensures
        apply_ops(c, seq![op]) == apply_op(c, op),
{
    lemma_apply_push(c, Seq::empty(), op);
    assert(Seq::<CacheOpView>::empty().push(op) =~= seq![op]);
}

proof fn lemma_apply_two(c: CacheView, a: CacheOpView, b: CacheOpView)
    ensures
        apply_ops(c, seq![a, b]) == apply_op(apply_op(c, a), b),
{
    lemma_apply_one(c, a);
    lemma_apply_push(c, seq![a], b);
    assert(seq![a].push(b) =~= seq![a, b]);
}

/// Storing the list of all boards that the database returned keeps the
/// caches in agreement with it.
pub proof fn law_kanbans_listed(db: DbView, c: CacheView, rows: Seq<KanbanView>)
    requires
        coherent(db, c),
        lists_kanbans(rows, db.kanbans),
    ensures
        coherent(db, apply_ops(c, kanbans_listed_plan(rows))),
{
    lemma_apply_one(c, CacheOpView::StoreKanbanList(rows));
}

/// Storing a board that the database returned for `id` keeps agreement.
pub proof fn law_kanban_read(db: DbView, c: CacheView, id: Seq<char>, row: KanbanView)
    requires
        coherent(db, c),
        db.kanbans.contains_key(id),
        db.kanbans[id] == row,
    ensures
        coherent(db, apply_ops(c, kanban_read_plan(id, row))),
{
    lemma_apply_one(c, CacheOpView::StoreKanban(id, row));
}

/// Storing the columns of a board that the database returned keeps agreement.
pub proof fn law_columns_listed(
    db: DbView,
    c: CacheView,
    kanban_id: Seq<char>,
    rows: Seq<ColumnView>,
)
    requires
        coherent(db, c),
        lists_columns(rows, columns_of(db, kanban_id)),
    ensures
        coherent(db, apply_ops(c, columns_listed_plan(kanban_id, rows))),
{
    lemma_apply_one(c, CacheOpView::StoreColumnList(kanban_id, rows));
}

/// Storing a column that the database returned for `id` keeps agreement.
pub proof fn law_column_read(db: DbView, c: CacheView, id: Seq<char>, row: ColumnView)
    requires
        coherent(db, c),
        db.columns.contains_key(id),
        db.columns[id] == row,
    ensures
        coherent(db, apply_ops(c, column_read_plan(id, row))),
{
    lemma_apply_one(c, CacheOpView::StoreColumn(id, row));
}

/// Storing the cards of a column that the database returned keeps agreement.
pub proof fn law_cards_listed(db: DbView, c: CacheView, column_id: Seq<char>, rows: Seq<CardView>)
    requires
        coherent(db, c),
        lists_cards(rows, cards_of(db, column_id)),
    ensures
        coherent(db, apply_ops(c, cards_listed_plan(column_id, rows))),
{
    lemma_apply_one(c, CacheOpView::StoreCardList(column_id, rows));
}

/// Storing a card that the database returned for `id` keeps agreement.
pub proof fn law_card_read(db: DbView, c: CacheView, id: Seq<char>, row: CardView)
    requires
        coherent(db, c),
        db.cards.contains_key(id),
        db.cards[id] == row,
    ensures
        coherent(db, apply_ops(c, card_read_plan(id, row))),
{
    lemma_apply_one(c, CacheOpView::StoreCard(id, row));
}

/// After a new board is inserted, the caches as the create handler leaves them
/// agree with the database.
pub proof fn law_kanban_created(db: DbView, c: CacheView, k: KanbanView)
    requires
        coherent(db, c),
        !db.kanbans.contains_key(k.id),
    ensures
        coherent(insert_kanban(db, k), apply_ops(c, kanban_created_plan(k))),
{
    let db2 = insert_kanban(db, k);
    lemma_apply_two(c, CacheOpView::DropKanbanList, CacheOpView::StoreKanban(k.id, k));
    let r = apply_ops(c, kanban_created_plan(k));
    assert forall|x: Seq<char>| #[trigger] r.columns_by_kanban.contains_key(x) implies lists_columns(r.columns_by_kanban[x], columns_of(db2, x)) by {
        assert(columns_of(db2, x) =~= columns_of(db, x));
    }
    assert forall|x: Seq<char>| #[trigger] r.cards_by_column.contains_key(x) implies lists_cards(r.cards_by_column[x], cards_of(db2, x)) by {
        assert(cards_of(db2, x) =~= cards_of(db, x));
    }
}

/// After a new column is inserted, the caches as the create handler leaves
/// them agree with the database.
pub proof fn law_column_created(db: DbView, c: CacheView, col: ColumnView)
    requires
        coherent(db, c),
        !db.columns.contains_key(col.id),
    ensures
        coherent(insert_column(db, col), apply_ops(c, column_created_plan(col))),
{
    let db2 = insert_column(db, col);
    lemma_apply_two(
        c,
        CacheOpView::DropColumnList(col.kanban_id),
        CacheOpView::StoreColumn(col.id, col),
    );
    let r = apply_ops(c, column_created_plan(col));
    assert forall|x: Seq<char>| #[trigger] r.columns_by_kanban.contains_key(x) implies lists_columns(r.columns_by_kanban[x], columns_of(db2, x)) by {
        assert(x != col.kanban_id);
        assert(columns_of(db2, x) =~= columns_of(db, x));
    }
    assert forall|x: Seq<char>| #[trigger] r.cards_by_column.contains_key(x) implies lists_cards(r.cards_by_column[x], cards_of(db2, x)) by {
        assert(cards_of(db2, x) =~= cards_of(db, x));
    }
}

/// After a new card is inserted, the caches as the create handler leaves them
/// agree with the database.
pub proof fn law_card_created(db: DbView, c: CacheView, card: CardView)
    requires
        coherent(db, c),
        !db.cards.contains_key(card.id),
    ensures
        coherent(insert_card(db, card), apply_ops(c, card_created_plan(card))),
{
    let db2 = insert_card(db, card);
    lemma_apply_two(
        c,
        CacheOpView::DropCardList(card.column_id),
        CacheOpView::StoreCard(card.id, card),
    );
    let r = apply_ops(c, card_created_plan(card));
    assert forall|x: Seq<char>| #[trigger] r.columns_by_kanban.contains_key(x) implies lists_columns(r.columns_by_kanban[x], columns_of(db2, x)) by {
        assert(columns_of(db2, x) =~= columns_of(db, x));
    }
    assert forall|x: Seq<char>| #[trigger] r.cards_by_column.contains_key(x) implies lists_cards(r.cards_by_column[x], cards_of(db2, x)) by {
        assert(x != card.column_id);
        assert(cards_of(db2, x) =~= cards_of(db, x));
    }
}


proof fn lemma_apply_three(c: CacheView, a: CacheOpView, b: CacheOpView, d: CacheOpView)
    ensures
        apply_ops(c, seq![a, b, d]) == apply_op(apply_op(apply_op(c, a), b), d),
{
    lemma_apply_two(c, a, b);
    lemma_apply_push(c, seq![a, b], d);
    assert(seq![a, b].push(d) =~= seq![a, b, d]);
}

/// After a board is updated, the caches as the update handler leaves them
/// agree with the database: the board's new row is cached and the list of all
/// boards is dropped.
pub proof fn law_kanban_updated(
    db: DbView,
    c: CacheView,
    id: Seq<char>,
    title: Seq<char>,
    description: Seq<char>,
    k: KanbanView,
)
    requires
        coherent(db, c),
        db.kanbans.contains_key(id),
        k == (KanbanView { title, description, ..db.kanbans[id] }),
    ensures
        coherent(update_kanban_row(db, id, title, description), apply_ops(c, kanban_updated_plan(id, k))),
{
    let db2 = update_kanban_row(db, id, title, description);
    lemma_apply_two(c, CacheOpView::DropKanbanList, CacheOpView::StoreKanban(id, k));
    let r = apply_ops(c, kanban_updated_plan(id, k));
    assert forall|x: Seq<char>| #[trigger] r.columns_by_kanban.contains_key(x) implies lists_columns(r.columns_by_kanban[x], columns_of(db2, x)) by {
        assert(columns_of(db2, x) =~= columns_of(db, x));
    }
    assert forall|x: Seq<char>| #[trigger] r.cards_by_column.contains_key(x) implies lists_cards(r.cards_by_column[x], cards_of(db2, x)) by {
        assert(cards_of(db2, x) =~= cards_of(db, x));
    }
}

/// After a column's title is updated, the caches as the update handler leaves
/// them agree with the database: its board's column list is dropped and the
/// column's new row cached.
pub proof fn law_column_updated(
    db: DbView,
    c: CacheView,
    id: Seq<char>,
    title: Seq<char>,
    col: ColumnView,
)
    requires
        coherent(db, c),
        db.columns.contains_key(id),
        col == (ColumnView { title, ..db.columns[id] }),
    ensures
        coherent(update_column_row(db, id, title), apply_ops(c, column_updated_plan(id, col))),
{
    let db2 = update_column_row(db, id, title);
    lemma_apply_three(
        c,
        CacheOpView::DropColumnList(col.kanban_id),
        CacheOpView::DropColumn(col.id),
        CacheOpView::StoreColumn(id, col),
    );
    assert(column_updated_plan(id, col) =~= seq![
        CacheOpView::DropColumnList(col.kanban_id),
        CacheOpView::DropColumn(col.id),
        CacheOpView::StoreColumn(id, col),
    ]);
    let r = apply_ops(c, column_updated_plan(id, col));
    assert forall|x: Seq<char>| #[trigger] r.columns_by_kanban.contains_key(x) implies lists_columns(r.columns_by_kanban[x], columns_of(db2, x)) by {
        assert(x != col.kanban_id);
        assert(columns_of(db2, x) =~= columns_of(db, x));
    }
    assert forall|x: Seq<char>| #[trigger] r.cards_by_column.contains_key(x) implies lists_cards(r.cards_by_column[x], cards_of(db2, x)) by {
        assert(cards_of(db2, x) =~= cards_of(db, x));
    }
}

/// After a card is updated, the caches as the update handler leaves them agree
/// with the database: its column's card list is dropped and the card's new
/// row cached.
pub proof fn law_card_updated(
    db: DbView,
    c: CacheView,
    id: Seq<char>,
    title: Seq<char>,
    description: Seq<char>,
    card: CardView,
)
    requires
        coherent(db, c),
        db.cards.contains_key(id),
        card == (CardView { title, description, ..db.cards[id] }),
    ensures
        coherent(update_card_row(db, id, title, description), apply_ops(c, card_updated_plan(id, card))),
{
    let db2 = update_card_row(db, id, title, description);
    lemma_apply_three(
        c,
        CacheOpView::DropCardList(card.column_id),
        CacheOpView::DropCard(card.id),
        CacheOpView::StoreCard(id, card),
    );
    assert(card_updated_plan(id, card) =~= seq![
        CacheOpView::DropCardList(card.column_id),
        CacheOpView::DropCard(card.id),
        CacheOpView::StoreCard(id, card),
    ]);
    let r = apply_ops(c, card_updated_plan(id, card));
    assert forall|x: Seq<char>| #[trigger] r.columns_by_kanban.contains_key(x) implies lists_columns(r.columns_by_kanban[x], columns_of(db2, x)) by {
        assert(columns_of(db2, x) =~= columns_of(db, x));
    }
    assert forall|x: Seq<char>| #[trigger] r.cards_by_column.contains_key(x) implies lists_cards(r.cards_by_column[x], cards_of(db2, x)) by {
        assert(x != card.column_id);
        assert(cards_of(db2, x) =~= cards_of(db, x));
    }
}


proof fn lemma_add_drops(a: Seq<CacheOpView>, b: Seq<CacheOpView>)
    requires
        only_drops(a),
        only_drops(b),
    ensures
        only_drops(a + b),
        forall|x: CacheOpView| a.contains(x) ==> #[trigger] (a + b).contains(x),
        forall|x: CacheOpView| b.contains(x) ==> #[trigger] (a + b).contains(x),
{
    assert forall|i: int| 0 <= i < (a + b).len() implies match #[trigger] (a + b)[i] {
        CacheOpView::DropKanbanList => true,
        CacheOpView::DropKanban(_) => true,
        CacheOpView::DropColumnList(_) => true,
        CacheOpView::DropColumn(_) => true,
        CacheOpView::DropCardList(_) => true,
        CacheOpView::DropCard(_) => true,
        _ => false,
    } by {
        if i < a.len() {
            assert((a + b)[i] == a[i]);
        } else {
            assert((a + b)[i] == b[i - a.len()]);
        }
    }
    assert forall|x: CacheOpView| a.contains(x) implies #[trigger] (a + b).contains(x) by {
        let i = choose|i: int| 0 <= i < a.len() && a[i] == x;
        assert((a + b)[i] == x);
    }
    assert forall|x: CacheOpView| b.contains(x) implies #[trigger] (a + b).contains(x) by {
        let i = choose|i: int| 0 <= i < b.len() && b[i] == x;
        assert((a + b)[a.len() + i] == x);
    }
}

proof fn lemma_column_drops(cols: Seq<ColumnView>)
    ensures
        only_drops(column_drops(cols)),
        forall|i: int|
            0 <= i < cols.len() ==> column_drops(cols).contains(
                CacheOpView::DropColumn(#[trigger] cols[i].id),
            ) && column_drops(cols).contains(CacheOpView::DropCardList(cols[i].id)),
    decreases cols.len(),
{
    if cols.len() > 0 {
        let prev = cols.drop_last();
        lemma_column_drops(prev);
        let tail = seq![
            CacheOpView::DropColumn(cols.last().id),
            CacheOpView::DropCardList(cols.last().id),
        ];
        assert(only_drops(tail));
        lemma_add_drops(column_drops(prev), tail);
        assert forall|i: int| 0 <= i < cols.len() implies column_drops(cols).contains(
            CacheOpView::DropColumn(#[trigger] cols[i].id),
        ) && column_drops(cols).contains(CacheOpView::DropCardList(cols[i].id)) by {
            if i < cols.len() - 1 {
                assert(prev[i] == cols[i]);
            } else {
                assert(tail[0] == CacheOpView::DropColumn(cols[i].id));
                assert(tail[1] == CacheOpView::DropCardList(cols[i].id));
                assert(tail.contains(CacheOpView::DropColumn(cols[i].id)));
                assert(tail.contains(CacheOpView::DropCardList(cols[i].id)));
            }
        }
    }
}

proof fn lemma_card_drops(cards: Seq<CardView>)
    ensures
        only_drops(card_drops(cards)),
        forall|i: int|
            0 <= i < cards.len() ==> card_drops(cards).contains(
                CacheOpView::DropCard(#[trigger] cards[i].id),
            ),
    decreases cards.len(),
{
    if cards.len() > 0 {
        let prev = cards.drop_last();
        lemma_card_drops(prev);
        let tail = seq![CacheOpView::DropCard(cards.last().id)];
        assert(only_drops(tail));
        lemma_add_drops(card_drops(prev), tail);
        assert(card_drops(prev) + tail =~= card_drops(cards));
        assert forall|i: int| 0 <= i < cards.len() implies card_drops(cards).contains(
            CacheOpView::DropCard(#[trigger] cards[i].id),
        ) by {
            if i < cards.len() - 1 {
                assert(prev[i] == cards[i]);
            } else {
                assert(tail[0] == CacheOpView::DropCard(cards[i].id));
                assert(tail.contains(CacheOpView::DropCard(cards[i].id)));
            }
        }
    }
}

/// After a board is deleted, with its columns and their cards in cascade, the
/// caches as the delete handler leaves them agree with the database, given
/// that the columns and cards it read before the delete were all the board's.
pub proof fn law_kanban_deleted(
    db: DbView,
    c: CacheView,
    id: Seq<char>,
    columns: Seq<ColumnView>,
    cards: Seq<CardView>,
)
    requires
        coherent(db, c),
        holds_columns(columns, columns_of(db, id)),
        holds_cards(cards, cards_of_kanban(db, id)),
    ensures
        coherent(delete_kanban_row(db, id), apply_ops(c, kanban_deleted_plan(id, columns, cards))),
{
    let db2 = delete_kanban_row(db, id);
    let head = seq![
        CacheOpView::DropKanbanList,
        CacheOpView::DropKanban(id),
        CacheOpView::DropColumnList(id),
    ];
    let plan = kanban_deleted_plan(id, columns, cards);
    assert(only_drops(head));
    lemma_column_drops(columns);
    lemma_card_drops(cards);
    lemma_add_drops(head, column_drops(columns));
    lemma_add_drops(head + column_drops(columns), card_drops(cards));
    assert(plan == head + column_drops(columns) + card_drops(cards));
    assert(head[0] == CacheOpView::DropKanbanList && head.contains(CacheOpView::DropKanbanList));
    assert(head[1] == CacheOpView::DropKanban(id) && head.contains(CacheOpView::DropKanban(id)));
    assert(head[2] == CacheOpView::DropColumnList(id) && head.contains(
        CacheOpView::DropColumnList(id),
    ));
    lemma_apply_drops(c, plan);
    let r = apply_ops(c, plan);
    assert forall|x: Seq<char>| #[trigger] r.kanbans.contains_key(x) implies db2.kanbans.contains_key(x) && db2.kanbans[x] == r.kanbans[x] by {
        assert(c.kanbans.contains_key(x));
    }
    assert forall|x: Seq<char>| #[trigger] r.columns_by_kanban.contains_key(x) implies lists_columns(r.columns_by_kanban[x], columns_of(db2, x)) by {
        assert(c.columns_by_kanban.contains_key(x));
        assert(x != id);
        assert(columns_of(db2, x) =~= columns_of(db, x));
    }
    assert forall|x: Seq<char>| #[trigger] r.columns.contains_key(x) implies db2.columns.contains_key(x) && db2.columns[x] == r.columns[x] by {
        assert(c.columns.contains_key(x));
        if db.columns[x].kanban_id == id {
            assert(columns_of(db, id).contains_key(x));
            let i = choose|i: int| 0 <= i < columns.len() && columns[i].id == x;
            assert(column_drops(columns).contains(CacheOpView::DropColumn(columns[i].id)));
        }
    }
    assert forall|x: Seq<char>| #[trigger] r.cards_by_column.contains_key(x) implies lists_cards(r.cards_by_column[x], cards_of(db2, x)) by {
        assert(c.cards_by_column.contains_key(x));
        if columns_of(db, id).contains_key(x) {
            let i = choose|i: int| 0 <= i < columns.len() && columns[i].id == x;
            assert(column_drops(columns).contains(CacheOpView::DropCardList(columns[i].id)));
        }
        assert(cards_of(db2, x) =~= cards_of(db, x));
    }
    assert forall|x: Seq<char>| #[trigger] r.cards.contains_key(x) implies db2.cards.contains_key(x) && db2.cards[x] == r.cards[x] by {
        assert(c.cards.contains_key(x));
        if columns_of(db, id).contains_key(db.cards[x].column_id) {
            assert(cards_of_kanban(db, id).contains_key(x));
            let i = choose|i: int| 0 <= i < cards.len() && cards[i].id == x;
            assert(card_drops(cards).contains(CacheOpView::DropCard(cards[i].id)));
        }
    }
}

/// After a column is deleted, with its cards in cascade, the caches as the
/// delete handler leaves them agree with the database, given that the cards
/// it read before the delete were all the column's.
pub proof fn law_column_deleted(
    db: DbView,
    c: CacheView,
    id: Seq<char>,
    column: ColumnView,
    cards: Seq<CardView>,
)
    requires
        db_well_formed(db),
        coherent(db, c),
        db.columns.contains_key(id),
        db.columns[id] == column,
        holds_cards(cards, cards_of(db, id)),
    ensures
        coherent(delete_column_row(db, id), apply_ops(c, column_deleted_plan(id, column, cards))),
{
    let db2 = delete_column_row(db, id);
    let head = seq![
        CacheOpView::DropColumnList(column.kanban_id),
        CacheOpView::DropColumn(column.id),
        CacheOpView::DropCardList(id),
    ];
    let plan = column_deleted_plan(id, column, cards);
    assert(plan =~= head + card_drops(cards));
    assert(only_drops(head));
    lemma_card_drops(cards);
    lemma_add_drops(head, card_drops(cards));
    assert(head[0] == CacheOpView::DropColumnList(column.kanban_id) && head.contains(
        CacheOpView::DropColumnList(column.kanban_id),
    ));
    assert(head[1] == CacheOpView::DropColumn(column.id) && head.contains(
        CacheOpView::DropColumn(column.id),
    ));
    assert(head[2] == CacheOpView::DropCardList(id) && head.contains(CacheOpView::DropCardList(id)));
    lemma_apply_drops(c, plan);
    let r = apply_ops(c, plan);
    assert forall|x: Seq<char>| #[trigger] r.kanbans.contains_key(x) implies db2.kanbans.contains_key(x) && db2.kanbans[x] == r.kanbans[x] by {
        assert(c.kanbans.contains_key(x));
    }
    assert forall|x: Seq<char>| #[trigger] r.columns_by_kanban.contains_key(x) implies lists_columns(r.columns_by_kanban[x], columns_of(db2, x)) by {
        assert(c.columns_by_kanban.contains_key(x));
        assert(x != column.kanban_id);
        assert(columns_of(db2, x) =~= columns_of(db, x));
    }
    assert forall|x: Seq<char>| #[trigger] r.columns.contains_key(x) implies db2.columns.contains_key(x) && db2.columns[x] == r.columns[x] by {
        assert(c.columns.contains_key(x));
        assert(x != id);
    }
    assert forall|x: Seq<char>| #[trigger] r.cards_by_column.contains_key(x) implies lists_cards(r.cards_by_column[x], cards_of(db2, x)) by {
        assert(c.cards_by_column.contains_key(x));
        assert(x != id);
        assert(cards_of(db2, x) =~= cards_of(db, x));
    }
    assert forall|x: Seq<char>| #[trigger] r.cards.contains_key(x) implies db2.cards.contains_key(x) && db2.cards[x] == r.cards[x] by {
        assert(c.cards.contains_key(x));
        if db.cards[x].column_id == id {
            assert(cards_of(db, id).contains_key(x));
            let i = choose|i: int| 0 <= i < cards.len() && cards[i].id == x;
            assert(card_drops(cards).contains(CacheOpView::DropCard(cards[i].id)));
        }
    }
}

/// After a card is deleted, the caches as the delete handler leaves them agree
/// with the database.
pub proof fn law_card_deleted(db: DbView, c: CacheView, id: Seq<char>, card: CardView)
    requires
        db_well_formed(db),
        coherent(db, c),
        db.cards.contains_key(id),
        db.cards[id] == card,
    ensures
        coherent(delete_card_row(db, id), apply_ops(c, card_deleted_plan(card))),
{
    let db2 = delete_card_row(db, id);
    let plan = card_deleted_plan(card);
    assert(only_drops(plan));
    assert(plan[0] == CacheOpView::DropCardList(card.column_id) && plan.contains(
        CacheOpView::DropCardList(card.column_id),
    ));
    assert(plan[1] == CacheOpView::DropCard(card.id) && plan.contains(
        CacheOpView::DropCard(card.id),
    ));
    lemma_apply_drops(c, plan);
    let r = apply_ops(c, plan);
    assert forall|x: Seq<char>| #[trigger] r.kanbans.contains_key(x) implies db2.kanbans.contains_key(x) && db2.kanbans[x] == r.kanbans[x] by {
        assert(c.kanbans.contains_key(x));
    }
    assert forall|x: Seq<char>| #[trigger] r.columns_by_kanban.contains_key(x) implies lists_columns(r.columns_by_kanban[x], columns_of(db2, x)) by {
        assert(c.columns_by_kanban.contains_key(x));
        assert(columns_of(db2, x) =~= columns_of(db, x));
    }
    assert forall|x: Seq<char>| #[trigger] r.columns.contains_key(x) implies db2.columns.contains_key(x) && db2.columns[x] == r.columns[x] by {
        assert(c.columns.contains_key(x));
    }
    assert forall|x: Seq<char>| #[trigger] r.cards_by_column.contains_key(x) implies lists_cards(r.cards_by_column[x], cards_of(db2, x)) by {
        assert(c.cards_by_column.contains_key(x));
        assert(x != card.column_id);
        assert(cards_of(db2, x) =~= cards_of(db, x));
    }
    assert forall|x: Seq<char>| #[trigger] r.cards.contains_key(x) implies db2.cards.contains_key(x) && db2.cards[x] == r.cards[x] by {
        assert(c.cards.contains_key(x));
        assert(x != id);
    }
}

/// A read answered from agreeing caches gives what the database holds: a
/// cached board, column or card is the database's row under that identifier,
/// and a cached list lists exactly the rows the database query would return.
pub proof fn law_cache_hits_answer_as_database(db: DbView, c: CacheView, id: Seq<char>)
    requires
        coherent(db, c),
    ensures
        c.kanban_list matches Some(l) ==> lists_kanbans(l, db.kanbans),
        c.kanbans.contains_key(id) ==> db.kanbans.contains_key(id) && c.kanbans[id]
            == db.kanbans[id],
        c.columns_by_kanban.contains_key(id) ==> lists_columns(
            c.columns_by_kanban[id],
            columns_of(db, id),
        ),
        c.columns.contains_key(id) ==> db.columns.contains_key(id) && c.columns[id]
            == db.columns[id],
        c.cards_by_column.contains_key(id) ==> lists_cards(c.cards_by_column[id], cards_of(db, id)),
        c.cards.contains_key(id) ==> db.cards.contains_key(id) && c.cards[id] == db.cards[id],
{
}

/// Every write statement keeps each row stored under its own identifier (the
/// premise that the delete laws take).
pub proof fn law_writes_keep_rows_keyed(
    db: DbView,
    id: Seq<char>,
    title: Seq<char>,
    description: Seq<char>,
    k: KanbanView,
    col: ColumnView,
    card: CardView,
)
    requires
        db_well_formed(db),
    ensures
        db_well_formed(insert_kanban(db, k)),
        db_well_formed(update_kanban_row(db, id, title, description)),
        db_well_formed(delete_kanban_row(db, id)),
        db_well_formed(insert_column(db, col)),
        db_well_formed(update_column_row(db, id, title)),
        db_well_formed(delete_column_row(db, id)),
        db_well_formed(insert_card(db, card)),
        db_well_formed(update_card_row(db, id, title, description)),
        db_well_formed(delete_card_row(db, id)),
{
}

/// What the database returned to the request in `stage` (as `event`) is what
/// it held, and a write statement it ran had its premise: a new row's
/// identifier was free, and a row being updated is still the one read.
pub open spec fn step_premise(db: DbView, stage: Stage, event: Event) -> bool {
    match (stage, event) {
        (Stage::ListingKanbans, Event::Kanbans(Ok(rows))) => lists_kanbans(
            rows.deep_view(),
            db.kanbans,
        ),
        (Stage::ReadingKanban(id), Event::Kanban(Ok(row))) => db.kanbans.contains_key(id@)
            && db.kanbans[id@] == row@,
        (Stage::CreatingKanban(k), Event::Written(Ok(_))) => !db.kanbans.contains_key(k.id@),
        (Stage::UpdatingKanban(u), Event::Written(Ok(_))) => db.kanbans.contains_key(u.id@) && u@
            == (KanbanView { title: u.title@, description: u.description@, ..db.kanbans[u.id@] }),
        (Stage::DeletingKanban(id, cols, cards), Event::Written(Ok(_))) => holds_columns(
            cols.deep_view(),
            columns_of(db, id@),
        ) && holds_cards(cards.deep_view(), cards_of_kanban(db, id@)),
        (Stage::ListingColumns(kid), Event::Columns(Ok(rows))) => lists_columns(
            rows.deep_view(),
            columns_of(db, kid@),
        ),
        (Stage::ReadingColumn(id), Event::Column(Ok(row))) => db.columns.contains_key(id@)
            && db.columns[id@] == row@,
        (Stage::CreatingColumn(c), Event::Written(Ok(_))) => !db.columns.contains_key(c.id@),
        (Stage::UpdatingColumn(u), Event::Written(Ok(_))) => db.columns.contains_key(u.id@) && u@
            == (ColumnView { title: u.title@, ..db.columns[u.id@] }),
        (Stage::DeletingColumn(id, col, cards), Event::Written(Ok(_))) => db.columns.contains_key(
            id@,
        ) && db.columns[id@] == col@ && holds_cards(cards.deep_view(), cards_of(db, id@)),
        (Stage::ListingCards(cid), Event::Cards(Ok(rows))) => lists_cards(
            rows.deep_view(),
            cards_of(db, cid@),
        ),
        (Stage::ReadingCard(id), Event::Card(Ok(row))) => db.cards.contains_key(id@)
            && db.cards[id@] == row@,
        (Stage::CreatingCard(c), Event::Written(Ok(_))) => !db.cards.contains_key(c.id@),
        (Stage::UpdatingCard(u), Event::Written(Ok(_))) => db.cards.contains_key(u.id@) && u@ == (
        CardView { title: u.title@, description: u.description@, ..db.cards[u.id@] }),
        (Stage::DeletingCard(card), Event::Written(Ok(_))) => db.cards.contains_key(card.id@)
            && db.cards[card.id@] == card@,
        _ => true,
    }
}

/// The database after the statement that the request in `stage` ran, as
/// reported by `event`: a failed statement, a read, or a delete of no row
/// leaves it as it was.
pub open spec fn step_db(db: DbView, stage: Stage, event: Event) -> DbView {
    match (stage, event) {
        (Stage::CreatingKanban(k), Event::Written(Ok(_))) => insert_kanban(db, k@),
        (Stage::UpdatingKanban(u), Event::Written(Ok(_))) => update_kanban_row(
            db,
            u.id@,
            u.title@,
            u.description@,
        ),
        (Stage::DeletingKanban(id, _, _), Event::Written(deleted)) => if delete_answer(
            deleted,
        ) is Ok {
            delete_kanban_row(db, id@)
        } else {
            db
        },
        (Stage::CreatingColumn(c), Event::Written(Ok(_))) => insert_column(db, c@),
        (Stage::UpdatingColumn(u), Event::Written(Ok(_))) => update_column_row(db, u.id@, u.title@),
        (Stage::DeletingColumn(id, _, _), Event::Written(deleted)) => if delete_answer(
            deleted,
        ) is Ok {
            delete_column_row(db, id@)
        } else {
            db
        },
        (Stage::CreatingCard(c), Event::Written(Ok(_))) => insert_card(db, c@),
        (Stage::UpdatingCard(u), Event::Written(Ok(_))) => update_card_row(
            db,
            u.id@,
            u.title@,
            u.description@,
        ),
        (Stage::DeletingCard(card), Event::Written(deleted)) => if delete_answer(deleted) is Ok {
            delete_card_row(db, card.id@)
        } else {
            db
        },
        _ => db,
    }
}

/// Every step of every request keeps the caches in agreement with the
/// database: from agreeing caches, the cache operations a step performs
/// (`step_cache_ops`) leave caches that agree with the database as the step's
/// statement left it, given that what the step read was what the database
/// held.
pub proof fn law_every_step_keeps_agreement(db: DbView, c: CacheView, stage: Stage, event: Event)
    requires
        db_well_formed(db),
        coherent(db, c),
        awaits(stage, event),
        step_premise(db, stage, event),
    ensures
        coherent(step_db(db, stage, event), apply_ops(c, step_cache_ops(stage, event))),
{
    match (stage, event) {
        (Stage::ListingKanbans, Event::Kanbans(Ok(rows))) => {
            law_kanbans_listed(db, c, rows.deep_view());
        },
        (Stage::ReadingKanban(id), Event::Kanban(Ok(row))) => {
            law_kanban_read(db, c, id@, row@);
        },
        (Stage::CreatingKanban(k), Event::Written(Ok(_))) => {
            law_kanban_created(db, c, k@);
        },
        (Stage::UpdatingKanban(u), Event::Written(Ok(_))) => {
            law_kanban_updated(db, c, u.id@, u.title@, u.description@, u@);
        },
        (Stage::DeletingKanban(id, cols, cards), Event::Written(deleted)) => {
            if delete_answer(deleted) is Ok {
                law_kanban_deleted(db, c, id@, cols.deep_view(), cards.deep_view());
            } else {
                assert(apply_ops(c, Seq::empty()) == c);
            }
        },
        (Stage::ListingColumns(kid), Event::Columns(Ok(rows))) => {
            law_columns_listed(db, c, kid@, rows.deep_view());
        },
        (Stage::ReadingColumn(id), Event::Column(Ok(row))) => {
            law_column_read(db, c, id@, row@);
        },
        (Stage::CreatingColumn(col), Event::Written(Ok(_))) => {
            law_column_created(db, c, col@);
        },
        (Stage::UpdatingColumn(u), Event::Written(Ok(_))) => {
            law_column_updated(db, c, u.id@, u.title@, u@);
        },
        (Stage::DeletingColumn(id, col, cards), Event::Written(deleted)) => {
            if delete_answer(deleted) is Ok {
                law_column_deleted(db, c, id@, col@, cards.deep_view());
            } else {
                assert(apply_ops(c, Seq::empty()) == c);
            }
        },
        (Stage::ListingCards(cid), Event::Cards(Ok(rows))) => {
            law_cards_listed(db, c, cid@, rows.deep_view());
        },
        (Stage::ReadingCard(id), Event::Card(Ok(row))) => {
            law_card_read(db, c, id@, row@);
        },
        (Stage::CreatingCard(card), Event::Written(Ok(_))) => {
            law_card_created(db, c, card@);
        },
        (Stage::UpdatingCard(u), Event::Written(Ok(_))) => {
            law_card_updated(db, c, u.id@, u.title@, u.description@, u@);
        },
        (Stage::DeletingCard(card), Event::Written(deleted)) => {
            if delete_answer(deleted) is Ok {
                law_card_deleted(db, c, card.id@, card@);
            } else {
                assert(apply_ops(c, Seq::empty()) == c);
            }
        },
        _ => {
            assert(apply_ops(c, Seq::empty()) == c);
        },
    }
}

/// The columns of board `kanban_id` have pairwise distinct positions.
pub open spec fn column_positions_distinct(db: DbView, kanban_id: Seq<char>) -> bool {
    forall|a: Seq<char>, b: Seq<char>|
        #[trigger] columns_of(db, kanban_id).contains_key(a) && #[trigger] columns_of(
            db,
            kanban_id,
        ).contains_key(b) && a != b ==> columns_of(db, kanban_id)[a].position != columns_of(
            db,
            kanban_id,
        )[b].position
}

/// No column of board `kanban_id` has a position above `max` (as for the
/// answer of `SELECT COALESCE(MAX(position), -1)`).
pub open spec fn column_positions_at_most(db: DbView, kanban_id: Seq<char>, max: i64) -> bool {
    forall|a: Seq<char>|
        #[trigger] columns_of(db, kanban_id).contains_key(a) ==> columns_of(
            db,
            kanban_id,
        )[a].position <= max
}

/// The cards of column `column_id` have pairwise distinct positions.
pub open spec fn card_positions_distinct(db: DbView, column_id: Seq<char>) -> bool {
    forall|a: Seq<char>, b: Seq<char>|
        #[trigger] cards_of(db, column_id).contains_key(a) && #[trigger] cards_of(
            db,
            column_id,
        ).contains_key(b) && a != b ==> cards_of(db, column_id)[a].position != cards_of(
            db,
            column_id,
        )[b].position
}

/// No card of column `column_id` has a position above `max`.
pub open spec fn card_positions_at_most(db: DbView, column_id: Seq<char>, max: i64) -> bool {
    forall|a: Seq<char>|
        #[trigger] cards_of(db, column_id).contains_key(a) ==> cards_of(
            db,
            column_id,
        )[a].position <= max
}

/// A new column goes after every column of its board. Where the board's
/// positions were distinct and `max` was the largest of them (what the
/// positioning query returned), the column that the create inserts has a
/// position above every other column of the board, the positions stay
/// distinct, and any listing of the board's columns ends with the new column.
pub proof fn law_new_column_goes_last(
    db: DbView,
    kanban_id: String,
    body: CreateColumn,
    max: i64,
    fresh: Option<Fresh>,
    next: Stage,
    action: Action,
    listing: Seq<ColumnView>,
)
    requires
        column_positions_distinct(db, kanban_id@),
        column_positions_at_most(db, kanban_id@, max),
        transition(
            Stage::PositioningColumn(kanban_id, body),
            Event::Position(Ok(max)),
            fresh,
            next,
            action,
        ),
        next matches Stage::CreatingColumn(c) ==> !db.columns.contains_key(c.id@),
    ensures
        next matches Stage::CreatingColumn(c) ==> {
            let db2 = insert_column(db, c@);
            &&& c.kanban_id@ == kanban_id@
            &&& column_positions_distinct(db2, kanban_id@)
            &&& forall|a: Seq<char>|
                #[trigger] columns_of(db2, kanban_id@).contains_key(a) && a != c.id@ ==> columns_of(
                    db2,
                    kanban_id@,
                )[a].position < c.position
            &&& lists_columns(listing, columns_of(db2, kanban_id@)) ==> listing.len() > 0
                && listing.last() == c@
        },
{
    if let Stage::CreatingColumn(c) = next {
        let k = kanban_id@;
        let db2 = insert_column(db, c@);
        let rows = columns_of(db2, k);
        assert forall|a: Seq<char>| #[trigger] rows.contains_key(a) && a != c.id@ implies rows[a].position
            < c.position by {
            assert(columns_of(db, k).contains_key(a));
        }
        assert forall|a: Seq<char>, b: Seq<char>|
            #[trigger] rows.contains_key(a) && #[trigger] rows.contains_key(b) && a != b implies rows[a].position
            != rows[b].position by {
            if a != c.id@ && b != c.id@ {
                assert(columns_of(db, k).contains_key(a));
                assert(columns_of(db, k).contains_key(b));
            }
        }
        if lists_columns(listing, rows) {
            assert(rows.contains_key(c.id@));
            let i = choose|i: int| 0 <= i < listing.len() && listing[i].id == c.id@;
            assert(rows.contains_key(listing[i].id));
            let n = listing.len() - 1;
            if i < n {
                assert(rows.contains_key(listing[n].id));
                assert(listing[i].id != listing[n].id);
            }
        }
    }
}

/// A new card goes after every card of its column: as for columns, where the
/// column's positions were distinct and `max` was the largest, the inserted
/// card's position is above every other, the positions stay distinct, and any
/// listing of the column's cards ends with the new card.
pub proof fn law_new_card_goes_last(
    db: DbView,
    column_id: String,
    body: CreateCard,
    max: i64,
    fresh: Option<Fresh>,
    next: Stage,
    action: Action,
    listing: Seq<CardView>,
)
    requires
        card_positions_distinct(db, column_id@),
        card_positions_at_most(db, column_id@, max),
        transition(
            Stage::PositioningCard(column_id, body),
            Event::Position(Ok(max)),
            fresh,
            next,
            action,
        ),
        next matches Stage::CreatingCard(c) ==> !db.cards.contains_key(c.id@),
    ensures
        next matches Stage::CreatingCard(c) ==> {
            let db2 = insert_card(db, c@);
            &&& c.column_id@ == column_id@
            &&& card_positions_distinct(db2, column_id@)
            &&& forall|a: Seq<char>|
                #[trigger] cards_of(db2, column_id@).contains_key(a) && a != c.id@ ==> cards_of(
                    db2,
                    column_id@,
                )[a].position < c.position
            &&& lists_cards(listing, cards_of(db2, column_id@)) ==> listing.len() > 0
                && listing.last() == c@
        },
{
    if let Stage::CreatingCard(c) = next {
        let k = column_id@;
        let db2 = insert_card(db, c@);
        let rows = cards_of(db2, k);
        assert forall|a: Seq<char>| #[trigger] rows.contains_key(a) && a != c.id@ implies rows[a].position
            < c.position by {
            assert(cards_of(db, k).contains_key(a));
        }
        assert forall|a: Seq<char>, b: Seq<char>|
            #[trigger] rows.contains_key(a) && #[trigger] rows.contains_key(b) && a != b implies rows[a].position
            != rows[b].position by {
            if a != c.id@ && b != c.id@ {
                assert(cards_of(db, k).contains_key(a));
                assert(cards_of(db, k).contains_key(b));
            }
        }
        if lists_cards(listing, rows) {
            assert(rows.contains_key(c.id@));
            let i = choose|i: int| 0 <= i < listing.len() && listing[i].id == c.id@;
            assert(rows.contains_key(listing[i].id));
            let n = listing.len() - 1;
            if i < n {
                assert(rows.contains_key(listing[n].id));
                assert(listing[i].id != listing[n].id);
            }
        }
    }
}

/// Repeating an update changes nothing more: the second update of a board,
/// column or card with the same body computes the same row as the first, and
/// its statement leaves the database as the first one left it.
pub proof fn law_updates_repeat(
    db: DbView,
    id: Seq<char>,
    kb: UpdateKanban,
    cb: UpdateColumn,
    rb: UpdateCard,
)
    requires
        db_well_formed(db),
    ensures
        db.kanbans.contains_key(id) ==> ({
            let u1 = kanban_after_update(id, db.kanbans[id], kb);
            let db1 = update_kanban_row(db, id, u1.title, u1.description);
            let u2 = kanban_after_update(id, db1.kanbans[id], kb);
            &&& db1.kanbans[id] == u1
            &&& u2 == u1
            &&& update_kanban_row(db1, id, u2.title, u2.description) == db1
        }),
        db.columns.contains_key(id) ==> ({
            let u1 = column_after_update(id, db.columns[id], cb);
            let db1 = update_column_row(db, id, u1.title);
            let u2 = column_after_update(id, db1.columns[id], cb);
            &&& db1.columns[id] == u1
            &&& u2 == u1
            &&& update_column_row(db1, id, u2.title) == db1
        }),
        db.cards.contains_key(id) ==> ({
            let u1 = card_after_update(id, db.cards[id], rb);
            let db1 = update_card_row(db, id, u1.title, u1.description);
            let u2 = card_after_update(id, db1.cards[id], rb);
            &&& db1.cards[id] == u1
            &&& u2 == u1
            &&& update_card_row(db1, id, u2.title, u2.description) == db1
        }),
{
    if db.kanbans.contains_key(id) {
        let u1 = kanban_after_update(id, db.kanbans[id], kb);
        let db1 = update_kanban_row(db, id, u1.title, u1.description);
        let u2 = kanban_after_update(id, db1.kanbans[id], kb);
        assert(db1.kanbans[id] == u1);
        assert(u2 == u1);
        assert(update_kanban_row(db1, id, u2.title, u2.description).kanbans =~= db1.kanbans);
    }
    if db.columns.contains_key(id) {
        let u1 = column_after_update(id, db.columns[id], cb);
        let db1 = update_column_row(db, id, u1.title);
        let u2 = column_after_update(id, db1.columns[id], cb);
        assert(db1.columns[id] == u1);
        assert(u2 == u1);
        assert(update_column_row(db1, id, u2.title).columns =~= db1.columns);
    }
    if db.cards.contains_key(id) {
        let u1 = card_after_update(id, db.cards[id], rb);
        let db1 = update_card_row(db, id, u1.title, u1.description);
        let u2 = card_after_update(id, db1.cards[id], rb);
        assert(db1.cards[id] == u1);
        assert(u2 == u1);
        assert(update_card_row(db1, id, u2.title, u2.description).cards =~= db1.cards);
    }
}


/// After a board is created, the list of all boards is no longer cached, so
/// the next list is read from the database; and any listing of the
/// database's boards holds the new board exactly once.
pub proof fn law_list_after_kanban_created(
    db: DbView,
    c: CacheView,
    k: KanbanView,
    listing: Seq<KanbanView>,
)
    requires
        !db.kanbans.contains_key(k.id),
    ensures
        apply_ops(c, kanban_created_plan(k)).kanban_list is None,
        lists_kanbans(listing, insert_kanban(db, k).kanbans) ==> exists|i: int|
            0 <= i < listing.len() && #[trigger] listing[i] == k && forall|j: int|
                0 <= j < listing.len() && j != i ==> listing[j].id != k.id,
{
    lemma_apply_two(c, CacheOpView::DropKanbanList, CacheOpView::StoreKanban(k.id, k));
    let rows = insert_kanban(db, k).kanbans;
    if lists_kanbans(listing, rows) {
        assert(rows.contains_key(k.id));
        let i = choose|i: int| 0 <= i < listing.len() && listing[i].id == k.id;
        assert(rows.contains_key(listing[i].id));
        assert forall|j: int| 0 <= j < listing.len() && j != i implies listing[j].id != k.id by {
            if j < i {
                assert(listing[j].id != listing[i].id);
            } else {
                assert(listing[i].id != listing[j].id);
            }
        }
    }
}

/// After a board is deleted, neither the caches nor the database hold it, so
/// the next read of it is answered "not found".
pub proof fn law_get_after_kanban_deleted(
    db: DbView,
    c: CacheView,
    id: Seq<char>,
    columns: Seq<ColumnView>,
    cards: Seq<CardView>,
)
    ensures
        !apply_ops(c, kanban_deleted_plan(id, columns, cards)).kanbans.contains_key(id),
        !delete_kanban_row(db, id).kanbans.contains_key(id),
{
    let head = seq![
        CacheOpView::DropKanbanList,
        CacheOpView::DropKanban(id),
        CacheOpView::DropColumnList(id),
    ];
    let plan = kanban_deleted_plan(id, columns, cards);
    assert(only_drops(head));
    lemma_column_drops(columns);
    lemma_card_drops(cards);
    lemma_add_drops(head, column_drops(columns));
    lemma_add_drops(head + column_drops(columns), card_drops(cards));
    assert(plan == head + column_drops(columns) + card_drops(cards));
    assert(head[1] == CacheOpView::DropKanban(id) && head.contains(CacheOpView::DropKanban(id)));
    lemma_apply_drops(c, plan);
}

/// After a column is updated, the caches hold the new row under its
/// identifier and no longer hold its board's column list; the database holds
/// the new row too, so the next get answers it, and any listing of the
/// board's columns holds it exactly once, with no stale title.
pub proof fn law_reads_after_column_updated(
    db: DbView,
    c: CacheView,
    id: Seq<char>,
    title: Seq<char>,
    u: ColumnView,
    listing: Seq<ColumnView>,
)
    requires
        db_well_formed(db),
        db.columns.contains_key(id),
        u == (ColumnView { title, ..db.columns[id] }),
    ensures
        ({
            let r = apply_ops(c, column_updated_plan(id, u));
            let db1 = update_column_row(db, id, title);
            &&& r.columns.contains_key(id) && r.columns[id] == u
            &&& db1.columns.contains_key(id) && db1.columns[id] == u
            &&& !r.columns_by_kanban.contains_key(u.kanban_id)
            &&& lists_columns(listing, columns_of(db1, u.kanban_id)) ==> exists|i: int|
                0 <= i < listing.len() && #[trigger] listing[i] == u && forall|j: int|
                    0 <= j < listing.len() && j != i ==> listing[j].id != id
        }),
{
    lemma_apply_three(
        c,
        CacheOpView::DropColumnList(u.kanban_id),
        CacheOpView::DropColumn(u.id),
        CacheOpView::StoreColumn(id, u),
    );
    assert(column_updated_plan(id, u) =~= seq![
        CacheOpView::DropColumnList(u.kanban_id),
        CacheOpView::DropColumn(u.id),
        CacheOpView::StoreColumn(id, u),
    ]);
    let db1 = update_column_row(db, id, title);
    let rows = columns_of(db1, u.kanban_id);
    if lists_columns(listing, rows) {
        assert(rows.contains_key(id));
        let i = choose|i: int| 0 <= i < listing.len() && listing[i].id == id;
        assert(rows.contains_key(listing[i].id));
        assert forall|j: int| 0 <= j < listing.len() && j != i implies listing[j].id != id by {
            if j < i {
                assert(listing[j].id != listing[i].id);
            } else {
                assert(listing[i].id != listing[j].id);
            }
        }
    }
}

/// After a card is created, its column's card list is no longer cached, so the
/// next list is read from the database; and any listing of the column's cards
/// holds the new card exactly once (`law_new_card_goes_last` puts it last).
pub proof fn law_list_after_card_created(
    db: DbView,
    c: CacheView,
    card: CardView,
    listing: Seq<CardView>,
)
    requires
        !db.cards.contains_key(card.id),
    ensures
        !apply_ops(c, card_created_plan(card)).cards_by_column.contains_key(card.column_id),
        lists_cards(listing, cards_of(insert_card(db, card), card.column_id)) ==> exists|i: int|
            0 <= i < listing.len() && #[trigger] listing[i] == card && forall|j: int|
                0 <= j < listing.len() && j != i ==> listing[j].id != card.id,
{
    lemma_apply_two(
        c,
        CacheOpView::DropCardList(card.column_id),
        CacheOpView::StoreCard(card.id, card),
    );
    let rows = cards_of(insert_card(db, card), card.column_id);
    if lists_cards(listing, rows) {
        assert(rows.contains_key(card.id));
        let i = choose|i: int| 0 <= i < listing.len() && listing[i].id == card.id;
        assert(rows.contains_key(listing[i].id));
        assert forall|j: int| 0 <= j < listing.len() && j != i implies listing[j].id != card.id by {
            if j < i {
                assert(listing[j].id != listing[i].id);
            } else {
                assert(listing[i].id != listing[j].id);
            }
        }
    }
}

/// `action` answers the list or get `request` as the database `db` would:
/// the list its query returns, or the row under the identifier with 200.
pub open spec fn answers_as_database(db: DbView, request: Request, action: Action) -> bool {
    match request {
        Request::ListKanbans => action matches Action::Respond(Reply::Kanbans(v)) && lists_kanbans(
            v.deep_view(),
            db.kanbans,
        ),
        Request::GetKanban(id) => action matches Action::Respond(Reply::Kanban(s, v)) && s
            == ApiStatus::Success && db.kanbans.contains_key(id@) && db.kanbans[id@] == v@,
        Request::ListColumns(kid) => action matches Action::Respond(Reply::Columns(v))
            && lists_columns(v.deep_view(), columns_of(db, kid@)),
        Request::GetColumn(id) => action matches Action::Respond(Reply::Column(s, v)) && s
            == ApiStatus::Success && db.columns.contains_key(id@) && db.columns[id@] == v@,
        Request::ListCards(cid) => action matches Action::Respond(Reply::Cards(v)) && lists_cards(
            v.deep_view(),
            cards_of(db, cid@),
        ),
        Request::GetCard(id) => action matches Action::Respond(Reply::Card(s, v)) && s
            == ApiStatus::Success && db.cards.contains_key(id@) && db.cards[id@] == v@,
        _ => false,
    }
}

/// A request answered from caches that agree with the database gets the
/// answer the database would give: `start` answers a hit with
/// `answer_of_hit`, and where the caches held that hit for the request, the
/// answer is the database's list or row.
pub proof fn law_cache_hits_answer_requests_as_database(
    db: DbView,
    c: CacheView,
    request: Request,
    hit: CacheHit,
)
    requires
        coherent(db, c),
        hit_held(c, request, hit),
    ensures
        hit_fits(request, hit),
        answers_as_database(db, request, answer_of_hit(hit)),
{
}



/// A new server's caches agree with any database: they hold nothing.
pub proof fn law_new_caches_agree(db: DbView)
    ensures
        coherent(db, empty_caches()),
{
}

/// Every step keeps the server's caches in agreement with the database: where
/// `before` agreed with the database, what the step read was what the database
/// held, and `after` is `before` with the step's cache operations carried out
/// (as `advance` leaves it), `after` agrees with the database as the step's
/// statement left it.
pub proof fn law_server_steps_keep_agreement(
    db: DbView,
    before: AppCache,
    after: AppCache,
    stage: Stage,
    event: Event,
)
    requires
        db_well_formed(db),
        coherent(db, before@),
        awaits(stage, event),
        step_premise(db, stage, event),
        after@ == apply_ops(before@, step_cache_ops(stage, event)),
    ensures
        coherent(step_db(db, stage, event), after@),
{
    law_every_step_keeps_agreement(db, before@, stage, event);
}

/// A step that fails, gives up, or is not yet the last one changes no cache:
/// only a request's successful answer comes with cache operations.
pub proof fn law_failed_steps_leave_caches(
    c: CacheView,
    stage: Stage,
    event: Event,
    fresh: Option<Fresh>,
    next: Stage,
    action: Action,
)
    requires
        awaits(stage, event),
        transition(stage, event, fresh, next, action),
        !(next is Finished) || action is Abort || action matches Action::Respond(Reply::Failed(_)),
    ensures
        apply_ops(c, step_cache_ops(stage, event)) == c,
{
    assert(step_cache_ops(stage, event) =~= Seq::<CacheOpView>::empty());
}


/// The database after the delete statement `action` runs (with its
/// cascades); any other action leaves it as it is.
pub open spec fn after_delete(db: DbView, action: Action) -> DbView {
    match action {
        Action::DeleteKanban(a) => delete_kanban_row(db, a@),
        Action::DeleteColumn(a) => delete_column_row(db, a@),
        Action::DeleteCard(a) => delete_card_row(db, a@),
        _ => db,
    }
}

/// How many rows of its own table the delete statement `action` removes from
/// `db`: one where a row has the identifier it names, none otherwise.
pub open spec fn rows_deleted(db: DbView, action: Action) -> u64 {
    match action {
        Action::DeleteKanban(a) => if db.kanbans.contains_key(a@) { 1 } else { 0 },
        Action::DeleteColumn(a) => if db.columns.contains_key(a@) { 1 } else { 0 },
        Action::DeleteCard(a) => if db.cards.contains_key(a@) { 1 } else { 0 },
        _ => 0,
    }
}

/// Deleting an existing board removes it: once its columns and cards are
/// loaded, the statement issued deletes the board addressed by the request,
/// which is then gone from the database, and the request is answered 204.
pub proof fn law_board_delete_removes_it(
    db: DbView,
    id: String,
    columns: Vec<Column>,
    cards: Vec<Card>,
    fresh: Option<Fresh>,
    next: Stage,
    action: Action,
    fresh2: Option<Fresh>,
    last: Stage,
    answer: Action,
)
    requires
        db.kanbans.contains_key(id@),
        transition(Stage::LoadingKanbanCards(id, columns), Event::Cards(Ok(cards)), fresh, next, action),
        transition(next, Event::Written(Ok(rows_deleted(db, action))), fresh2, last, answer),
    ensures
        action matches Action::DeleteKanban(a) && a@ == id@,
        !after_delete(db, action).kanbans.contains_key(id@),
        last is Finished,
        answer == Action::Respond(Reply::Done(ApiStatus::NoContent)),
{
}

/// Deleting an existing column removes it: once its cards are loaded, the
/// statement issued deletes the column addressed by the request, which is
/// then gone from the database with its cards, and the request is answered 204.
pub proof fn law_column_delete_removes_it(
    db: DbView,
    id: String,
    column: Column,
    cards: Vec<Card>,
    fresh: Option<Fresh>,
    next: Stage,
    action: Action,
    fresh2: Option<Fresh>,
    last: Stage,
    answer: Action,
)
    requires
        db.columns.contains_key(id@),
        transition(Stage::LoadingColumnCards(id, column), Event::Cards(Ok(cards)), fresh, next, action),
        transition(next, Event::Written(Ok(rows_deleted(db, action))), fresh2, last, answer),
    ensures
        action matches Action::DeleteColumn(a) && a@ == id@,
        !after_delete(db, action).columns.contains_key(id@),
        forall|k: Seq<char>|
            #[trigger] after_delete(db, action).cards.contains_key(k) ==> after_delete(
                db,
                action,
            ).cards[k].column_id != id@,
        last is Finished,
        answer == Action::Respond(Reply::Done(ApiStatus::NoContent)),
{
}

/// Deleting an existing card removes it: once the card is loaded, the
/// statement issued deletes the card addressed by the request, which is then
/// gone from the database, and the request is answered 204.
pub proof fn law_card_delete_removes_it(
    db: DbView,
    id: String,
    card: Card,
    fresh: Option<Fresh>,
    next: Stage,
    action: Action,
    fresh2: Option<Fresh>,
    last: Stage,
    answer: Action,
)
    requires
        db.cards.contains_key(id@),
        transition(Stage::LoadingCardForDelete(id), Event::Card(Ok(card)), fresh, next, action),
        transition(next, Event::Written(Ok(rows_deleted(db, action))), fresh2, last, answer),
    ensures
        action matches Action::DeleteCard(a) && a@ == id@,
        !after_delete(db, action).cards.contains_key(id@),
        last is Finished,
        answer == Action::Respond(Reply::Done(ApiStatus::NoContent)),
{
}

/// What a position query returns on `db`: the largest position among the rows
/// it reads (the cards of one column, or the columns of one board), or -1
/// where there are none.
pub open spec fn position_answer(db: DbView, action: Action, max: i64) -> bool {
    match action {
        Action::LoadMaxCardPosition(cid) => card_positions_at_most(db, cid@, max) && (max == -1
            || exists|k: Seq<char>|
            #[trigger] cards_of(db, cid@).contains_key(k) && cards_of(db, cid@)[k].position == max),
        Action::LoadMaxColumnPosition(kid) => column_positions_at_most(db, kid@, max) && (max
            == -1 || exists|k: Seq<char>|
            #[trigger] columns_of(db, kid@).contains_key(k) && columns_of(db, kid@)[k].position
                == max),
        _ => false,
    }
}

/// A new card goes after every card already in its column: where the card
/// create asked for the largest position among the cards of its column (the
/// query that `start` issues for it) and the database answered `max`, the
/// card inserted has a position above every card of that column.
pub proof fn law_card_create_goes_after_its_column(
    db: DbView,
    column_id: String,
    body: CreateCard,
    max: i64,
    fresh: Option<Fresh>,
    next: Stage,
    action: Action,
)
    requires
        position_answer(db, Action::LoadMaxCardPosition(column_id), max),
        transition(
            Stage::PositioningCard(column_id, body),
            Event::Position(Ok(max)),
            fresh,
            next,
            action,
        ),
    ensures
        action matches Action::InsertCard(c) ==> c.column_id@ == column_id@ && forall|k: Seq<char>|
            #[trigger] cards_of(db, column_id@).contains_key(k) ==> cards_of(
                db,
                column_id@,
            )[k].position < c.position,
{
}

/// A new column goes after every column already on its board, as for cards.
pub proof fn law_column_create_goes_after_its_board(
    db: DbView,
    kanban_id: String,
    body: CreateColumn,
    max: i64,
    fresh: Option<Fresh>,
    next: Stage,
    action: Action,
)
    requires
        position_answer(db, Action::LoadMaxColumnPosition(kanban_id), max),
        transition(
            Stage::PositioningColumn(kanban_id, body),
            Event::Position(Ok(max)),
            fresh,
            next,
            action,
        ),
    ensures
        action matches Action::InsertColumn(c) ==> c.kanban_id@ == kanban_id@ && forall|
            k: Seq<char>,
        |
            #[trigger] columns_of(db, kanban_id@).contains_key(k) ==> columns_of(
                db,
                kanban_id@,
            )[k].position < c.position,
{
}

} // verus!
