//! The database as the server's statements see it: three tables keyed by
//! identifier, what the list queries answer, and what each write statement
//! (with the schema's cascading deletes) does to the tables.

use vstd::prelude::*;
use crate::model::{CardView, ColumnView, KanbanView};

verus! {

/// The rows of the three tables, each keyed by its identifier.
pub struct DbView {
    pub kanbans: Map<Seq<char>, KanbanView>,
    pub columns: Map<Seq<char>, ColumnView>,
    pub cards: Map<Seq<char>, CardView>,
}

/// Every row is stored under its own identifier (the primary key).
pub open spec fn db_well_formed(db: DbView) -> bool {
    &&& forall|k: Seq<char>| #[trigger] db.kanbans.contains_key(k) ==> db.kanbans[k].id == k
    &&& forall|k: Seq<char>| #[trigger] db.columns.contains_key(k) ==> db.columns[k].id == k
    &&& forall|k: Seq<char>| #[trigger] db.cards.contains_key(k) ==> db.cards[k].id == k
}

/// The columns of one board (`WHERE kanban_id = ?`).
pub open spec fn columns_of(db: DbView, kanban_id: Seq<char>) -> Map<Seq<char>, ColumnView> {
    Map::new(
        |k: Seq<char>| db.columns.contains_key(k) && db.columns[k].kanban_id == kanban_id,
        |k: Seq<char>| db.columns[k],
    )
}

/// The cards of one column (`WHERE column_id = ?`).
pub open spec fn cards_of(db: DbView, column_id: Seq<char>) -> Map<Seq<char>, CardView> {
    Map::new(
        |k: Seq<char>| db.cards.contains_key(k) && db.cards[k].column_id == column_id,
        |k: Seq<char>| db.cards[k],
    )
}

/// The cards in any column of one board (the join of cards with columns).
pub open spec fn cards_of_kanban(db: DbView, kanban_id: Seq<char>) -> Map<Seq<char>, CardView> {
    Map::new(
        |k: Seq<char>|
            db.cards.contains_key(k) && columns_of(db, kanban_id).contains_key(
                db.cards[k].column_id,
            ),
        |k: Seq<char>| db.cards[k],
    )
}

/// Text order of SQLite's default collation: code point by code point, a
/// proper prefix first.
pub open spec fn text_le(a: Seq<char>, b: Seq<char>) -> bool
    decreases a.len(),
{
    if a.len() == 0 {
        true
    } else if b.len() == 0 {
        false
    } else if a[0] != b[0] {
        (a[0] as u32) < (b[0] as u32)
    } else {
        text_le(a.drop_first(), b.drop_first())
    }
}

/// `ORDER BY position, created_at`: `a` may come before `b`.
pub open spec fn position_le(pa: i64, ta: Seq<char>, pb: i64, tb: Seq<char>) -> bool {
    pa < pb || (pa == pb && text_le(ta, tb))
}

/// `l` lists exactly the boards of `rows`, each once, ordered by creation time.
pub open spec fn lists_kanbans(l: Seq<KanbanView>, rows: Map<Seq<char>, KanbanView>) -> bool {
    &&& forall|i: int|
        0 <= i < l.len() ==> rows.contains_key(#[trigger] l[i].id) && rows[l[i].id] == l[i]
    &&& forall|k: Seq<char>|
        #[trigger] rows.contains_key(k) ==> exists|i: int| 0 <= i < l.len() && l[i].id == k
    &&& forall|i: int, j: int|
        0 <= i < j < l.len() ==> #[trigger] l[i].id != #[trigger] l[j].id && text_le(
            l[i].created_at,
            l[j].created_at,
        )
}

/// `l` lists exactly the columns of `rows`, each once, ordered by position and
/// then creation time.
pub open spec fn lists_columns(l: Seq<ColumnView>, rows: Map<Seq<char>, ColumnView>) -> bool {
    &&& forall|i: int|
        0 <= i < l.len() ==> rows.contains_key(#[trigger] l[i].id) && rows[l[i].id] == l[i]
    &&& forall|k: Seq<char>|
        #[trigger] rows.contains_key(k) ==> exists|i: int| 0 <= i < l.len() && l[i].id == k
    &&& forall|i: int, j: int|
        0 <= i < j < l.len() ==> #[trigger] l[i].id != #[trigger] l[j].id && position_le(
            l[i].position,
            l[i].created_at,
            l[j].position,
            l[j].created_at,
        )
}

/// `l` lists exactly the cards of `rows`, each once, ordered by position and
/// then creation time.
pub open spec fn lists_cards(l: Seq<CardView>, rows: Map<Seq<char>, CardView>) -> bool {
    &&& forall|i: int|
        0 <= i < l.len() ==> rows.contains_key(#[trigger] l[i].id) && rows[l[i].id] == l[i]
    &&& forall|k: Seq<char>|
        #[trigger] rows.contains_key(k) ==> exists|i: int| 0 <= i < l.len() && l[i].id == k
    &&& forall|i: int, j: int|
        0 <= i < j < l.len() ==> #[trigger] l[i].id != #[trigger] l[j].id && position_le(
            l[i].position,
            l[i].created_at,
            l[j].position,
            l[j].created_at,
        )
}

/// `l` holds every column of `rows`, and nothing else, in any order.
pub open spec fn holds_columns(l: Seq<ColumnView>, rows: Map<Seq<char>, ColumnView>) -> bool {
    &&& forall|i: int|
        0 <= i < l.len() ==> rows.contains_key(#[trigger] l[i].id) && rows[l[i].id] == l[i]
    &&& forall|k: Seq<char>|
        #[trigger] rows.contains_key(k) ==> exists|i: int| 0 <= i < l.len() && l[i].id == k
}

/// `l` holds every card of `rows`, and nothing else, in any order.
pub open spec fn holds_cards(l: Seq<CardView>, rows: Map<Seq<char>, CardView>) -> bool {
    &&& forall|i: int|
        0 <= i < l.len() ==> rows.contains_key(#[trigger] l[i].id) && rows[l[i].id] == l[i]
    &&& forall|k: Seq<char>|
        #[trigger] rows.contains_key(k) ==> exists|i: int| 0 <= i < l.len() && l[i].id == k
}

/// `INSERT INTO kanbans`.
pub open spec fn insert_kanban(db: DbView, k: KanbanView) -> DbView {
    DbView { kanbans: db.kanbans.insert(k.id, k), ..db }
}

/// `UPDATE kanbans SET title = ?, description = ? WHERE id = ?`.
pub open spec fn update_kanban_row(
    db: DbView,
    id: Seq<char>,
    title: Seq<char>,
    description: Seq<char>,
) -> DbView {
    if db.kanbans.contains_key(id) {
        DbView {
            kanbans: db.kanbans.insert(id, KanbanView { title, description, ..db.kanbans[id] }),
            ..db
        }
    } else {
        db
    }
}

/// `DELETE FROM kanbans WHERE id = ?`, with the columns of the board and their
/// cards deleted in cascade.
pub open spec fn delete_kanban_row(db: DbView, id: Seq<char>) -> DbView {
    DbView {
        kanbans: db.kanbans.remove(id),
        columns: Map::new(
            |k: Seq<char>| db.columns.contains_key(k) && db.columns[k].kanban_id != id,
            |k: Seq<char>| db.columns[k],
        ),
        cards: Map::new(
            |k: Seq<char>|
                db.cards.contains_key(k) && !columns_of(db, id).contains_key(db.cards[k].column_id),
            |k: Seq<char>| db.cards[k],
        ),
    }
}

/// `INSERT INTO columns`.
pub open spec fn insert_column(db: DbView, c: ColumnView) -> DbView {
    DbView { columns: db.columns.insert(c.id, c), ..db }
}

/// `UPDATE columns SET title = ? WHERE id = ?`.
pub open spec fn update_column_row(db: DbView, id: Seq<char>, title: Seq<char>) -> DbView {
    if db.columns.contains_key(id) {
        DbView { columns: db.columns.insert(id, ColumnView { title, ..db.columns[id] }), ..db }
    } else {
        db
    }
}

/// `DELETE FROM columns WHERE id = ?`, with the column's cards deleted in cascade.
pub open spec fn delete_column_row(db: DbView, id: Seq<char>) -> DbView {
    DbView {
        columns: db.columns.remove(id),
        cards: Map::new(
            |k: Seq<char>| db.cards.contains_key(k) && db.cards[k].column_id != id,
            |k: Seq<char>| db.cards[k],
        ),
        ..db
    }
}

/// `INSERT INTO cards`.
pub open spec fn insert_card(db: DbView, c: CardView) -> DbView {
    DbView { cards: db.cards.insert(c.id, c), ..db }
}

/// `UPDATE cards SET title = ?, description = ? WHERE id = ?`.
pub open spec fn update_card_row(
    db: DbView,
    id: Seq<char>,
    title: Seq<char>,
    description: Seq<char>,
) -> DbView {
    if db.cards.contains_key(id) {
        DbView {
            cards: db.cards.insert(id, CardView { title, description, ..db.cards[id] }),
            ..db
        }
    } else {
        db
    }
}

/// `DELETE FROM cards WHERE id = ?`.
pub open spec fn delete_card_row(db: DbView, id: Seq<char>) -> DbView {
    DbView { cards: db.cards.remove(id), ..db }
}

} // verus!
