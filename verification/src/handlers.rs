//! The decisions of the server's request handlers once the database has
//! answered: the reply each handler gives for what the database returned, and
//! the cache operations it performs (the plans of `cache`). The request state
//! machine (`exchange`) takes each of its steps through these functions.

use vstd::prelude::*;
use crate::cache::{
    card_created_plan, card_deleted_plan, card_drops, card_read_plan, card_updated_plan,
    cards_listed_plan, column_created_plan, column_deleted_plan, column_drops, column_read_plan,
    column_updated_plan, columns_listed_plan, kanban_created_plan, kanban_deleted_plan,
    kanban_read_plan, kanban_updated_plan, kanbans_listed_plan, CacheOp, CacheOpView,
};
use crate::model::{
    duplicate_cards, duplicate_columns, duplicate_kanbans, text_or, updated_card, updated_column,
    updated_kanban, Card, CardView, Column, ColumnView, Kanban, KanbanView, UpdateCard,
    UpdateColumn, UpdateKanban,
};
use crate::status::{fetch_status, map_fetch_one_error, ApiStatus, DbError, FetchError};

verus! {

/// The list of all boards was read from the database (or failed, 500). The
/// list read is the answer and is cached.
pub fn kanbans_listed(loaded: Result<Vec<Kanban>, DbError>) -> (out: (
    Result<Vec<Kanban>, ApiStatus>,
    Vec<CacheOp>,
))
    ensures
        match loaded {
            Ok(rows) => {
                &&& out.0 matches Ok(v) && v.deep_view() == rows.deep_view()
                &&& out.1.deep_view() == kanbans_listed_plan(rows.deep_view())
            },
            Err(_) => out.0 == Err::<Vec<Kanban>, ApiStatus>(ApiStatus::InternalError)
                && out.1.len() == 0,
        },
{
    match loaded {
        Ok(rows) => {
            let ops = vec![CacheOp::StoreKanbanList(duplicate_kanbans(&rows))];
            assert(ops.deep_view() =~= kanbans_listed_plan(rows.deep_view()));
            (Ok(rows), ops)
        },
        Err(_) => (Err(ApiStatus::InternalError), Vec::new()),
    }
}

/// The board `id` was read from the database. A missing row is answered with
/// 404, another failure with 500; a row found is the answer and is cached
/// under `id`.
pub fn kanban_read(id: String, loaded: Result<Kanban, FetchError>) -> (out: (
    Result<Kanban, ApiStatus>,
    Vec<CacheOp>,
))
    ensures
        match loaded {
            Ok(row) => {
                &&& out.0 matches Ok(v) && v@ == row@
                &&& out.1.deep_view() == kanban_read_plan(id@, row@)
            },
            Err(e) => out.0 == Err::<Kanban, ApiStatus>(fetch_status(e)) && out.1.len() == 0,
        },
{
    match loaded {
        Ok(row) => {
            let ops = vec![CacheOp::StoreKanban(id, row.duplicate())];
            assert(ops.deep_view() =~= kanban_read_plan(id@, row@));
            (Ok(row), ops)
        },
        Err(e) => (Err(map_fetch_one_error(e)), Vec::new()),
    }
}

/// The new board was inserted (or the insert failed, 500). It is answered
/// with 201, the list of all boards is dropped and the board cached.
pub fn kanban_created(kanban: Kanban, inserted: Result<(), DbError>) -> (out: (
    Result<(ApiStatus, Kanban), ApiStatus>,
    Vec<CacheOp>,
))
    ensures
        match inserted {
            Ok(_) => {
                &&& out.0 matches Ok((s, v)) && s == ApiStatus::Created && v@ == kanban@
                &&& out.1.deep_view() == kanban_created_plan(kanban@)
            },
            Err(_) => out.0 == Err::<(ApiStatus, Kanban), ApiStatus>(ApiStatus::InternalError)
                && out.1.len() == 0,
        },
{
    match inserted {
        Ok(_) => {
            let ops = vec![
                CacheOp::DropKanbanList,
                CacheOp::StoreKanban(kanban.id.clone(), kanban.duplicate()),
            ];
            assert(ops.deep_view() =~= kanban_created_plan(kanban@));
            (Ok((ApiStatus::Created, kanban)), ops)
        },
        Err(_) => (Err(ApiStatus::InternalError), Vec::new()),
    }
}

/// What an update of board `id` writes: the current row read from the
/// database with the fields the body gives replaced; a failed read is
/// answered as `map_fetch_one_error` says.
pub fn kanban_to_update(id: String, loaded: Result<Kanban, FetchError>, body: UpdateKanban) -> (r:
    Result<Kanban, ApiStatus>)
    ensures
        match loaded {
            Ok(current) => r matches Ok(k) && k@ == (KanbanView {
                id: id@,
                title: text_or(body.title, current.title@),
                description: text_or(body.description, current.description@),
                created_at: current.created_at@,
            }),
            Err(e) => r == Err::<Kanban, ApiStatus>(fetch_status(e)),
        },
{
    match loaded {
        Ok(current) => Ok(updated_kanban(id, current, body)),
        Err(e) => Err(map_fetch_one_error(e)),
    }
}

/// Board `id` was updated to `updated` (or the update failed, 500). The new
/// row is the answer; the list of all boards is dropped and the row cached
/// under `id`.
pub fn kanban_updated(id: String, updated: Kanban, written: Result<(), DbError>) -> (out: (
    Result<Kanban, ApiStatus>,
    Vec<CacheOp>,
))
    ensures
        match written {
            Ok(_) => {
                &&& out.0 matches Ok(v) && v@ == updated@
                &&& out.1.deep_view() == kanban_updated_plan(id@, updated@)
            },
            Err(_) => out.0 == Err::<Kanban, ApiStatus>(ApiStatus::InternalError) && out.1.len()
                == 0,
        },
{
    match written {
        Ok(_) => {
            let ops = vec![CacheOp::DropKanbanList, CacheOp::StoreKanban(id, updated.duplicate())];
            assert(ops.deep_view() =~= kanban_updated_plan(id@, updated@));
            (Ok(updated), ops)
        },
        Err(_) => (Err(ApiStatus::InternalError), Vec::new()),
    }
}

/// The answer to a delete statement: 500 where it failed, 404 where it
/// deleted no row, 204 otherwise.
pub open spec fn delete_answer(deleted: Result<u64, DbError>) -> Result<ApiStatus, ApiStatus> {
    match deleted {
        Ok(n) => if n == 0 {
            Err(ApiStatus::NotFound)
        } else {
            Ok(ApiStatus::NoContent)
        },
        Err(_) => Err(ApiStatus::InternalError),
    }
}

fn push_column_drops(ops: &mut Vec<CacheOp>, columns: &Vec<Column>)
    ensures
        final(ops).deep_view() == old(ops).deep_view() + column_drops(columns.deep_view()),
{
    let ghost start = ops.deep_view();
    let mut i: usize = 0;
    while i < columns.len()
        invariant
            i <= columns.len(),
            ops.deep_view() == start + column_drops(columns.deep_view().take(i as int)),
        decreases columns.len() - i,
    {
        let ghost before = ops.deep_view();
        ops.push(CacheOp::DropColumn(columns[i].id.clone()));
        ops.push(CacheOp::DropCardList(columns[i].id.clone()));
        proof {
            let t = columns.deep_view().take(i + 1);
            assert(t.drop_last() =~= columns.deep_view().take(i as int));
            assert(t.last() == columns[i as int]@);
            assert(ops.deep_view() =~= before + seq![
                CacheOpView::DropColumn(columns[i as int].id@),
                CacheOpView::DropCardList(columns[i as int].id@),
            ]);
            assert(ops.deep_view() =~= start + column_drops(t));
        }
        i = i + 1;
    }
    assert(columns.deep_view().take(columns.len() as int) =~= columns.deep_view());
}

fn push_card_drops(ops: &mut Vec<CacheOp>, cards: &Vec<Card>)
    ensures
        final(ops).deep_view() == old(ops).deep_view() + card_drops(cards.deep_view()),
{
    let ghost start = ops.deep_view();
    let mut i: usize = 0;
    while i < cards.len()
        invariant
            i <= cards.len(),
            ops.deep_view() == start + card_drops(cards.deep_view().take(i as int)),
        decreases cards.len() - i,
    {
        let ghost before = ops.deep_view();
        ops.push(CacheOp::DropCard(cards[i].id.clone()));
        proof {
            let t = cards.deep_view().take(i + 1);
            assert(t.drop_last() =~= cards.deep_view().take(i as int));
            assert(t.last() == cards[i as int]@);
            assert(ops.deep_view() =~= before.push(CacheOpView::DropCard(cards[i as int].id@)));
            assert(ops.deep_view() =~= start + card_drops(t));
        }
        i = i + 1;
    }
    assert(cards.deep_view().take(cards.len() as int) =~= cards.deep_view());
}

/// The delete of board `id` ran, after its `columns` and the `cards` in them
/// were read. Answered as `delete_answer` says; where a row was deleted, the
/// list of all boards, the board, its column list, each column with its card
/// list and each card are dropped from the caches.
pub fn kanban_deleted(
    id: String,
    columns: Vec<Column>,
    cards: Vec<Card>,
    deleted: Result<u64, DbError>,
) -> (out: (Result<ApiStatus, ApiStatus>, Vec<CacheOp>))
    ensures
        out.0 == delete_answer(deleted),
        out.0 is Ok ==> out.1.deep_view() == kanban_deleted_plan(
            id@,
            columns.deep_view(),
            cards.deep_view(),
        ),
        out.0 is Err ==> out.1.len() == 0,
{
    match deleted {
        Ok(n) => {
            if n == 0 {
                return (Err(ApiStatus::NotFound), Vec::new());
            }
            let mut ops = vec![
                CacheOp::DropKanbanList,
                CacheOp::DropKanban(id.clone()),
                CacheOp::DropColumnList(id.clone()),
            ];
            assert(ops.deep_view() =~= seq![
                CacheOpView::DropKanbanList,
                CacheOpView::DropKanban(id@),
                CacheOpView::DropColumnList(id@),
            ]);
            push_column_drops(&mut ops, &columns);
            push_card_drops(&mut ops, &cards);
            (Ok(ApiStatus::NoContent), ops)
        },
        Err(_) => (Err(ApiStatus::InternalError), Vec::new()),
    }
}

/// The columns of board `kanban_id` were read from the database (or failed,
/// 500). The list read is the answer and is cached for the board.
pub fn columns_listed(kanban_id: String, loaded: Result<Vec<Column>, DbError>) -> (out: (
    Result<Vec<Column>, ApiStatus>,
    Vec<CacheOp>,
))
    ensures
        match loaded {
            Ok(rows) => {
                &&& out.0 matches Ok(v) && v.deep_view() == rows.deep_view()
                &&& out.1.deep_view() == columns_listed_plan(kanban_id@, rows.deep_view())
            },
            Err(_) => out.0 == Err::<Vec<Column>, ApiStatus>(ApiStatus::InternalError)
                && out.1.len() == 0,
        },
{
    match loaded {
        Ok(rows) => {
            let ops = vec![CacheOp::StoreColumnList(kanban_id, duplicate_columns(&rows))];
            assert(ops.deep_view() =~= columns_listed_plan(kanban_id@, rows.deep_view()));
            (Ok(rows), ops)
        },
        Err(_) => (Err(ApiStatus::InternalError), Vec::new()),
    }
}

/// The column `id` was read from the database. A missing row is answered with
/// 404, another failure with 500; a row found is the answer and is cached
/// under `id`.
pub fn column_read(id: String, loaded: Result<Column, FetchError>) -> (out: (
    Result<Column, ApiStatus>,
    Vec<CacheOp>,
))
    ensures
        match loaded {
            Ok(row) => {
                &&& out.0 matches Ok(v) && v@ == row@
                &&& out.1.deep_view() == column_read_plan(id@, row@)
            },
            Err(e) => out.0 == Err::<Column, ApiStatus>(fetch_status(e)) && out.1.len() == 0,
        },
{
    match loaded {
        Ok(row) => {
            let ops = vec![CacheOp::StoreColumn(id, row.duplicate())];
            assert(ops.deep_view() =~= column_read_plan(id@, row@));
            (Ok(row), ops)
        },
        Err(e) => (Err(map_fetch_one_error(e)), Vec::new()),
    }
}

/// The new column was inserted (or the insert failed, 500). It is answered
/// with 201, its board's column list is dropped and the column cached.
pub fn column_created(column: Column, inserted: Result<(), DbError>) -> (out: (
    Result<(ApiStatus, Column), ApiStatus>,
    Vec<CacheOp>,
))
    ensures
        match inserted {
            Ok(_) => {
                &&& out.0 matches Ok((s, v)) && s == ApiStatus::Created && v@ == column@
                &&& out.1.deep_view() == column_created_plan(column@)
            },
            Err(_) => out.0 == Err::<(ApiStatus, Column), ApiStatus>(ApiStatus::InternalError)
                && out.1.len() == 0,
        },
{
    match inserted {
        Ok(_) => {
            let ops = vec![
                CacheOp::DropColumnList(column.kanban_id.clone()),
                CacheOp::StoreColumn(column.id.clone(), column.duplicate()),
            ];
            assert(ops.deep_view() =~= column_created_plan(column@));
            (Ok((ApiStatus::Created, column)), ops)
        },
        Err(_) => (Err(ApiStatus::InternalError), Vec::new()),
    }
}

/// What an update of column `id` writes: the current row read from the
/// database with the title the body gives; a failed read is answered as
/// `map_fetch_one_error` says.
pub fn column_to_update(id: String, loaded: Result<Column, FetchError>, body: UpdateColumn) -> (r:
    Result<Column, ApiStatus>)
    ensures
        match loaded {
            Ok(current) => r matches Ok(c) && c@ == (ColumnView {
                id: id@,
                kanban_id: current.kanban_id@,
                title: text_or(body.title, current.title@),
                position: current.position,
                created_at: current.created_at@,
            }),
            Err(e) => r == Err::<Column, ApiStatus>(fetch_status(e)),
        },
{
    match loaded {
        Ok(current) => Ok(updated_column(id, current, body)),
        Err(e) => Err(map_fetch_one_error(e)),
    }
}

/// Column `id` was updated to `updated` (or the update failed, 500). The new
/// row is the answer; its board's column list and the column are dropped and
/// the row cached under `id`.
pub fn column_updated(id: String, updated: Column, written: Result<(), DbError>) -> (out: (
    Result<Column, ApiStatus>,
    Vec<CacheOp>,
))
    ensures
        match written {
            Ok(_) => {
                &&& out.0 matches Ok(v) && v@ == updated@
                &&& out.1.deep_view() == column_updated_plan(id@, updated@)
            },
            Err(_) => out.0 == Err::<Column, ApiStatus>(ApiStatus::InternalError) && out.1.len()
                == 0,
        },
{
    match written {
        Ok(_) => {
            let ops = vec![
                CacheOp::DropColumnList(updated.kanban_id.clone()),
                CacheOp::DropColumn(updated.id.clone()),
                CacheOp::StoreColumn(id, updated.duplicate()),
            ];
            assert(ops.deep_view() =~= column_updated_plan(id@, updated@));
            (Ok(updated), ops)
        },
        Err(_) => (Err(ApiStatus::InternalError), Vec::new()),
    }
}

/// The delete of column `id` ran, after the `column` and its `cards` were
/// read. Answered as `delete_answer` says; where a row was deleted, its
/// board's column list, the column, its card list and each card are dropped.
pub fn column_deleted(
    id: String,
    column: Column,
    cards: Vec<Card>,
    deleted: Result<u64, DbError>,
) -> (out: (Result<ApiStatus, ApiStatus>, Vec<CacheOp>))
    ensures
        out.0 == delete_answer(deleted),
        out.0 is Ok ==> out.1.deep_view() == column_deleted_plan(
            id@,
            column@,
            cards.deep_view(),
        ),
        out.0 is Err ==> out.1.len() == 0,
{
    match deleted {
        Ok(n) => {
            if n == 0 {
                return (Err(ApiStatus::NotFound), Vec::new());
            }
            let mut ops = vec![
                CacheOp::DropColumnList(column.kanban_id.clone()),
                CacheOp::DropColumn(column.id.clone()),
                CacheOp::DropCardList(id.clone()),
            ];
            assert(ops.deep_view() =~= seq![
                CacheOpView::DropColumnList(column.kanban_id@),
                CacheOpView::DropColumn(column.id@),
                CacheOpView::DropCardList(id@),
            ]);
            push_card_drops(&mut ops, &cards);
            assert(column_deleted_plan(id@, column@, cards.deep_view()) =~= seq![
                CacheOpView::DropColumnList(column.kanban_id@),
                CacheOpView::DropColumn(column.id@),
                CacheOpView::DropCardList(id@),
            ] + card_drops(cards.deep_view()));
            (Ok(ApiStatus::NoContent), ops)
        },
        Err(_) => (Err(ApiStatus::InternalError), Vec::new()),
    }
}

/// The cards of column `column_id` were read from the database (or failed,
/// 500). The list read is the answer and is cached for the column.
pub fn cards_listed(column_id: String, loaded: Result<Vec<Card>, DbError>) -> (out: (
    Result<Vec<Card>, ApiStatus>,
    Vec<CacheOp>,
))
    ensures
        match loaded {
            Ok(rows) => {
                &&& out.0 matches Ok(v) && v.deep_view() == rows.deep_view()
                &&& out.1.deep_view() == cards_listed_plan(column_id@, rows.deep_view())
            },
            Err(_) => out.0 == Err::<Vec<Card>, ApiStatus>(ApiStatus::InternalError)
                && out.1.len() == 0,
        },
{
    match loaded {
        Ok(rows) => {
            let ops = vec![CacheOp::StoreCardList(column_id, duplicate_cards(&rows))];
            assert(ops.deep_view() =~= cards_listed_plan(column_id@, rows.deep_view()));
            (Ok(rows), ops)
        },
        Err(_) => (Err(ApiStatus::InternalError), Vec::new()),
    }
}

/// The card `id` was read from the database. A missing row is answered with
/// 404, another failure with 500; a row found is the answer and is cached
/// under `id`.
pub fn card_read(id: String, loaded: Result<Card, FetchError>) -> (out: (
    Result<Card, ApiStatus>,
    Vec<CacheOp>,
))
    ensures
        match loaded {
            Ok(row) => {
                &&& out.0 matches Ok(v) && v@ == row@
                &&& out.1.deep_view() == card_read_plan(id@, row@)
            },
            Err(e) => out.0 == Err::<Card, ApiStatus>(fetch_status(e)) && out.1.len() == 0,
        },
{
    match loaded {
        Ok(row) => {
            let ops = vec![CacheOp::StoreCard(id, row.duplicate())];
            assert(ops.deep_view() =~= card_read_plan(id@, row@));
            (Ok(row), ops)
        },
        Err(e) => (Err(map_fetch_one_error(e)), Vec::new()),
    }
}

/// The new card was inserted (or the insert failed, 500). It is answered
/// with 201, its column's card list is dropped and the card cached.
pub fn card_created(card: Card, inserted: Result<(), DbError>) -> (out: (
    Result<(ApiStatus, Card), ApiStatus>,
    Vec<CacheOp>,
))
    ensures
        match inserted {
            Ok(_) => {
                &&& out.0 matches Ok((s, v)) && s == ApiStatus::Created && v@ == card@
                &&& out.1.deep_view() == card_created_plan(card@)
            },
            Err(_) => out.0 == Err::<(ApiStatus, Card), ApiStatus>(ApiStatus::InternalError)
                && out.1.len() == 0,
        },
{
    match inserted {
        Ok(_) => {
            let ops = vec![
                CacheOp::DropCardList(card.column_id.clone()),
                CacheOp::StoreCard(card.id.clone(), card.duplicate()),
            ];
            assert(ops.deep_view() =~= card_created_plan(card@));
            (Ok((ApiStatus::Created, card)), ops)
        },
        Err(_) => (Err(ApiStatus::InternalError), Vec::new()),
    }
}

/// What an update of card `id` writes: the current row read from the
/// database with the fields the body gives replaced; a failed read is
/// answered as `map_fetch_one_error` says.
pub fn card_to_update(id: String, loaded: Result<Card, FetchError>, body: UpdateCard) -> (r: Result<
    Card,
    ApiStatus,
>)
    ensures
        match loaded {
            Ok(current) => r matches Ok(c) && c@ == (CardView {
                id: id@,
                column_id: current.column_id@,
                title: text_or(body.title, current.title@),
                description: text_or(body.description, current.description@),
                position: current.position,
                created_at: current.created_at@,
            }),
            Err(e) => r == Err::<Card, ApiStatus>(fetch_status(e)),
        },
{
    match loaded {
        Ok(current) => Ok(updated_card(id, current, body)),
        Err(e) => Err(map_fetch_one_error(e)),
    }
}

/// Card `id` was updated to `updated` (or the update failed, 500). The new
/// row is the answer; its column's card list and the card are dropped and the
/// row cached under `id`.
pub fn card_updated(id: String, updated: Card, written: Result<(), DbError>) -> (out: (
    Result<Card, ApiStatus>,
    Vec<CacheOp>,
))
    ensures
        match written {
            Ok(_) => {
                &&& out.0 matches Ok(v) && v@ == updated@
                &&& out.1.deep_view() == card_updated_plan(id@, updated@)
            },
            Err(_) => out.0 == Err::<Card, ApiStatus>(ApiStatus::InternalError) && out.1.len()
                == 0,
        },
{
    match written {
        Ok(_) => {
            let ops = vec![
                CacheOp::DropCardList(updated.column_id.clone()),
                CacheOp::DropCard(updated.id.clone()),
                CacheOp::StoreCard(id, updated.duplicate()),
            ];
            assert(ops.deep_view() =~= card_updated_plan(id@, updated@));
            (Ok(updated), ops)
        },
        Err(_) => (Err(ApiStatus::InternalError), Vec::new()),
    }
}

/// The delete of a card ran, after the `card` was read. Answered as
/// `delete_answer` says; where a row was deleted, its column's card list and
/// the card are dropped.
pub fn card_deleted(card: Card, deleted: Result<u64, DbError>) -> (out: (
    Result<ApiStatus, ApiStatus>,
    Vec<CacheOp>,
))
    ensures
        out.0 == delete_answer(deleted),
        out.0 is Ok ==> out.1.deep_view() == card_deleted_plan(card@),
        out.0 is Err ==> out.1.len() == 0,
{
    match deleted {
        Ok(n) => {
            if n == 0 {
                return (Err(ApiStatus::NotFound), Vec::new());
            }
            let ops = vec![
                CacheOp::DropCardList(card.column_id.clone()),
                CacheOp::DropCard(card.id.clone()),
            ];
            assert(ops.deep_view() =~= card_deleted_plan(card@));
            (Ok(ApiStatus::NoContent), ops)
        },
        Err(_) => (Err(ApiStatus::InternalError), Vec::new()),
    }
}

} // verus!
