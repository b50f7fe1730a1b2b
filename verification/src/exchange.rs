//! One request to the server, from its arrival to its answer, as a state
//! machine: the server program performs each action (a database statement or
//! query) and hands back what it returned as the next event; the machine
//! decides the next action, the cache operations, and finally the answer.

use vstd::prelude::*;
use crate::cache::{
    apply_ops, CacheOpView, CacheView,
    card_created_plan, card_deleted_plan, card_read_plan, card_updated_plan, cards_listed_plan,
    column_created_plan, column_deleted_plan, column_read_plan, column_updated_plan,
    columns_listed_plan, kanban_created_plan, kanban_deleted_plan, kanban_read_plan,
    kanban_updated_plan, kanbans_listed_plan, AppCache, CacheOp,
};
use crate::handlers::{
    card_created, card_deleted, card_read, card_to_update, card_updated, cards_listed,
    column_created, column_deleted, column_read, column_to_update, column_updated, columns_listed,
    delete_answer, kanban_created, kanban_deleted, kanban_read, kanban_to_update, kanban_updated,
    kanbans_listed,
};
use crate::ids::is_v4_uuid_text;
use crate::model::{
    card_after_update, card_from, column_after_update, column_from, draw_fresh,
    kanban_after_update, kanban_from, text_or_empty, Card, CardView,
    Column, ColumnView, CreateCard, CreateColumn, CreateKanban, Fresh, Kanban, KanbanView,
    UpdateCard, UpdateColumn, UpdateKanban,
};
use crate::status::{fetch_status, map_fetch_one_error, ApiStatus, DbError, FetchError};
use crate::text::decimal;

verus! {

/// A request to the server, with its path parameter and body.
#[derive(Clone, Debug)]
pub enum Request {
    ListKanbans,
    CreateKanban(CreateKanban),
    GetKanban(String),
    UpdateKanban(String, UpdateKanban),
    DeleteKanban(String),
    ListColumns(String),
    CreateColumn(String, CreateColumn),
    GetColumn(String),
    UpdateColumn(String, UpdateColumn),
    DeleteColumn(String),
    ListCards(String),
    CreateCard(String, CreateCard),
    GetCard(String),
    UpdateCard(String, UpdateCard),
    DeleteCard(String),
}

/// The answer to a request.
#[derive(Clone, Debug)]
pub enum Reply {
    /// 200 with the list of boards.
    Kanbans(Vec<Kanban>),
    /// The status (200 or 201) with a board.
    Kanban(ApiStatus, Kanban),
    /// 200 with a list of columns.
    Columns(Vec<Column>),
    /// The status (200 or 201) with a column.
    Column(ApiStatus, Column),
    /// 200 with a list of cards.
    Cards(Vec<Card>),
    /// The status (200 or 201) with a card.
    Card(ApiStatus, Card),
    /// A success without body (204).
    Done(ApiStatus),
    /// A failure status (404 or 500).
    Failed(ApiStatus),
}

/// Why a request cannot be answered and the server gives up on it.
#[derive(Clone, Copy, Debug, PartialEq, Eq, Structural)]
pub enum Abort {
    /// The system clock reads earlier than the Unix epoch.
    ClockBeforeEpoch,
    /// The largest position is `i64::MAX`; the next one does not exist.
    PositionOverflow,
}

/// What the server program is to do next.
#[derive(Clone, Debug)]
pub enum Action {
    /// Send this answer; the request is finished.
    Respond(Reply),
    /// Give up on the request.
    Abort(Abort),
    /// `SELECT * FROM kanbans ORDER BY created_at`
    LoadKanbans,
    /// `SELECT * FROM kanbans WHERE id = ?`
    LoadKanban(String),
    /// `SELECT * FROM columns WHERE kanban_id = ? ORDER BY position, created_at`
    LoadColumns(String),
    /// `SELECT * FROM columns WHERE id = ?`
    LoadColumn(String),
    /// `SELECT * FROM cards WHERE column_id = ? ORDER BY position, created_at`
    LoadCards(String),
    /// `SELECT * FROM cards WHERE id = ?`
    LoadCard(String),
    /// The cards in any column of the board.
    LoadCardsOfKanban(String),
    /// `SELECT COALESCE(MAX(position), -1) FROM columns WHERE kanban_id = ?`
    LoadMaxColumnPosition(String),
    /// `SELECT COALESCE(MAX(position), -1) FROM cards WHERE column_id = ?`
    LoadMaxCardPosition(String),
    /// Insert the board.
    InsertKanban(Kanban),
    /// Set the title and description of the board with this identifier.
    UpdateKanban(Kanban),
    /// `DELETE FROM kanbans WHERE id = ?`
    DeleteKanban(String),
    /// Insert the column.
    InsertColumn(Column),
    /// Set the title of the column with this identifier.
    UpdateColumn(Column),
    /// `DELETE FROM columns WHERE id = ?`
    DeleteColumn(String),
    /// Insert the card.
    InsertCard(Card),
    /// Set the title and description of the card with this identifier.
    UpdateCard(Card),
    /// `DELETE FROM cards WHERE id = ?`
    DeleteCard(String),
}

/// What an action returned.
#[derive(Debug)]
pub enum Event {
    Kanbans(Result<Vec<Kanban>, DbError>),
    Kanban(Result<Kanban, FetchError>),
    Columns(Result<Vec<Column>, DbError>),
    Column(Result<Column, FetchError>),
    Cards(Result<Vec<Card>, DbError>),
    Card(Result<Card, FetchError>),
    /// The largest position found.
    Position(Result<i64, DbError>),
    /// The number of rows a write statement affected.
    Written(Result<u64, DbError>),
}

/// Where a request stands: what it waits for, and what it has gathered.
#[derive(Clone, Debug)]
pub enum Stage {
    Finished,
    ListingKanbans,
    CreatingKanban(Kanban),
    ReadingKanban(String),
    LoadingKanbanForUpdate(String, UpdateKanban),
    UpdatingKanban(Kanban),
    CheckingKanbanForDelete(String),
    LoadingKanbanColumns(String),
    LoadingKanbanCards(String, Vec<Column>),
    DeletingKanban(String, Vec<Column>, Vec<Card>),
    ListingColumns(String),
    PositioningColumn(String, CreateColumn),
    CreatingColumn(Column),
    ReadingColumn(String),
    LoadingColumnForUpdate(String, UpdateColumn),
    UpdatingColumn(Column),
    LoadingColumnForDelete(String),
    LoadingColumnCards(String, Column),
    DeletingColumn(String, Column, Vec<Card>),
    ListingCards(String),
    PositioningCard(String, CreateCard),
    CreatingCard(Card),
    ReadingCard(String),
    LoadingCardForUpdate(String, UpdateCard),
    UpdatingCard(Card),
    LoadingCardForDelete(String),
    DeletingCard(Card),
}

/// At most how many more events a request in this stage takes.
pub open spec fn steps_left(s: Stage) -> nat {
    match s {
        Stage::Finished => 0,
        Stage::CheckingKanbanForDelete(_) => 4,
        Stage::LoadingKanbanColumns(_) => 3,
        Stage::LoadingColumnForDelete(_) => 3,
        Stage::LoadingKanbanForUpdate(..) => 2,
        Stage::LoadingKanbanCards(..) => 2,
        Stage::PositioningColumn(..) => 2,
        Stage::LoadingColumnForUpdate(..) => 2,
        Stage::LoadingColumnCards(..) => 2,
        Stage::PositioningCard(..) => 2,
        Stage::LoadingCardForUpdate(..) => 2,
        Stage::LoadingCardForDelete(_) => 2,
        _ => 1,
    }
}

/// The event a stage waits for matches the action it issued.
pub open spec fn awaits(s: Stage, e: Event) -> bool {
    match s {
        Stage::Finished => false,
        Stage::ListingKanbans => e is Kanbans,
        Stage::ReadingKanban(_) => e is Kanban,
        Stage::LoadingKanbanForUpdate(..) => e is Kanban,
        Stage::CheckingKanbanForDelete(_) => e is Kanban,
        Stage::LoadingKanbanColumns(_) => e is Columns,
        Stage::LoadingKanbanCards(..) => e is Cards,
        Stage::ListingColumns(_) => e is Columns,
        Stage::ReadingColumn(_) => e is Column,
        Stage::LoadingColumnForUpdate(..) => e is Column,
        Stage::LoadingColumnForDelete(_) => e is Column,
        Stage::LoadingColumnCards(..) => e is Cards,
        Stage::ListingCards(_) => e is Cards,
        Stage::ReadingCard(_) => e is Card,
        Stage::LoadingCardForUpdate(..) => e is Card,
        Stage::LoadingCardForDelete(_) => e is Card,
        Stage::PositioningColumn(..) => e is Position,
        Stage::PositioningCard(..) => e is Position,
        _ => e is Written,
    }
}

/// The request fails with `status`.
pub open spec fn fails(next: Stage, action: Action, status: ApiStatus) -> bool {
    next is Finished && action == Action::Respond(Reply::Failed(status))
}

/// How a request starts where its answer is not taken from the cache: the
/// stage it enters and the first action. A create of a board makes the board
/// from `fresh`: its identifier, and the clock's reading in decimal as the
/// creation time; it gives up where the clock read earlier than the epoch.
pub open spec fn starts(request: Request, fresh: Option<Fresh>, stage: Stage, action: Action) -> bool {
    match request {
        Request::ListKanbans => stage is ListingKanbans && action is LoadKanbans,
        Request::CreateKanban(body) => match fresh {
            Some(f) => match f.clock {
                None => stage is Finished && action == Action::Abort(Abort::ClockBeforeEpoch),
                Some(secs) => match (stage, action) {
                    (Stage::CreatingKanban(k), Action::InsertKanban(k2)) => k2@ == k@ && k@ == (
                    KanbanView {
                        id: f.id@,
                        title: body.title@,
                        description: text_or_empty(body.description),
                        created_at: decimal(secs as nat),
                    }),
                    _ => false,
                },
            },
            None => false,
        },
        Request::GetKanban(id) => match (stage, action) {
            (Stage::ReadingKanban(i), Action::LoadKanban(a)) => i@ == id@ && a@ == id@,
            _ => false,
        },
        Request::UpdateKanban(id, body) => match (stage, action) {
            (Stage::LoadingKanbanForUpdate(i, b), Action::LoadKanban(a)) => i@ == id@ && b == body
                && a@ == id@,
            _ => false,
        },
        Request::DeleteKanban(id) => match (stage, action) {
            (Stage::CheckingKanbanForDelete(i), Action::LoadKanban(a)) => i@ == id@ && a@ == id@,
            _ => false,
        },
        Request::ListColumns(kid) => match (stage, action) {
            (Stage::ListingColumns(i), Action::LoadColumns(a)) => i@ == kid@ && a@ == kid@,
            _ => false,
        },
        Request::CreateColumn(kid, body) => match (stage, action) {
            (Stage::PositioningColumn(i, b), Action::LoadMaxColumnPosition(a)) => i@ == kid@ && b
                == body && a@ == kid@,
            _ => false,
        },
        Request::GetColumn(id) => match (stage, action) {
            (Stage::ReadingColumn(i), Action::LoadColumn(a)) => i@ == id@ && a@ == id@,
            _ => false,
        },
        Request::UpdateColumn(id, body) => match (stage, action) {
            (Stage::LoadingColumnForUpdate(i, b), Action::LoadColumn(a)) => i@ == id@ && b == body
                && a@ == id@,
            _ => false,
        },
        Request::DeleteColumn(id) => match (stage, action) {
            (Stage::LoadingColumnForDelete(i), Action::LoadColumn(a)) => i@ == id@ && a@ == id@,
            _ => false,
        },
        Request::ListCards(cid) => match (stage, action) {
            (Stage::ListingCards(i), Action::LoadCards(a)) => i@ == cid@ && a@ == cid@,
            _ => false,
        },
        Request::CreateCard(cid, body) => match (stage, action) {
            (Stage::PositioningCard(i, b), Action::LoadMaxCardPosition(a)) => i@ == cid@ && b
                == body && a@ == cid@,
            _ => false,
        },
        Request::GetCard(id) => match (stage, action) {
            (Stage::ReadingCard(i), Action::LoadCard(a)) => i@ == id@ && a@ == id@,
            _ => false,
        },
        Request::UpdateCard(id, body) => match (stage, action) {
            (Stage::LoadingCardForUpdate(i, b), Action::LoadCard(a)) => i@ == id@ && b == body
                && a@ == id@,
            _ => false,
        },
        Request::DeleteCard(id) => match (stage, action) {
            (Stage::LoadingCardForDelete(i), Action::LoadCard(a)) => i@ == id@ && a@ == id@,
            _ => false,
        },
    }
}

/// What a list or get request found in the cache.
#[derive(Clone, Debug)]
pub enum CacheHit {
    KanbanList(Vec<Kanban>),
    Kanban(Kanban),
    ColumnList(Vec<Column>),
    Column(Column),
    CardList(Vec<Card>),
    Card(Card),
}

/// The hit is of the kind the request reads: the list of boards for a list of
/// boards, a board for a get of a board, and so on.
pub open spec fn hit_fits(request: Request, hit: CacheHit) -> bool {
    match (request, hit) {
        (Request::ListKanbans, CacheHit::KanbanList(_)) => true,
        (Request::GetKanban(_), CacheHit::Kanban(_)) => true,
        (Request::ListColumns(_), CacheHit::ColumnList(_)) => true,
        (Request::GetColumn(_), CacheHit::Column(_)) => true,
        (Request::ListCards(_), CacheHit::CardList(_)) => true,
        (Request::GetCard(_), CacheHit::Card(_)) => true,
        _ => false,
    }
}

/// The caches `c` hold `hit` for `request`: the hit is of the request's kind
/// and is the list or row held under the request's key, as is.
pub open spec fn hit_held(c: CacheView, request: Request, hit: CacheHit) -> bool {
    match (request, hit) {
        (Request::ListKanbans, CacheHit::KanbanList(v)) => c.kanban_list == Some(v.deep_view()),
        (Request::GetKanban(id), CacheHit::Kanban(k)) => c.kanbans.contains_key(id@)
            && c.kanbans[id@] == k@,
        (Request::ListColumns(kid), CacheHit::ColumnList(v)) => c.columns_by_kanban.contains_key(
            kid@,
        ) && c.columns_by_kanban[kid@] == v.deep_view(),
        (Request::GetColumn(id), CacheHit::Column(col)) => c.columns.contains_key(id@)
            && c.columns[id@] == col@,
        (Request::ListCards(cid), CacheHit::CardList(v)) => c.cards_by_column.contains_key(cid@)
            && c.cards_by_column[cid@] == v.deep_view(),
        (Request::GetCard(id), CacheHit::Card(card)) => c.cards.contains_key(id@) && c.cards[id@]
            == card@,
        _ => false,
    }
}

/// The request is answered from the cache: a hit of its kind was found.
pub open spec fn served_from_cache(request: Request, hit: Option<CacheHit>) -> bool {
    hit matches Some(h) && hit_fits(request, h)
}

/// The answer a hit gives: exactly what the cache held, with status 200.
pub open spec fn answer_of_hit(hit: CacheHit) -> Action {
    match hit {
        CacheHit::KanbanList(v) => Action::Respond(Reply::Kanbans(v)),
        CacheHit::Kanban(k) => Action::Respond(Reply::Kanban(ApiStatus::Success, k)),
        CacheHit::ColumnList(v) => Action::Respond(Reply::Columns(v)),
        CacheHit::Column(c) => Action::Respond(Reply::Column(ApiStatus::Success, c)),
        CacheHit::CardList(v) => Action::Respond(Reply::Cards(v)),
        CacheHit::Card(c) => Action::Respond(Reply::Card(ApiStatus::Success, c)),
    }
}

/// The step from `stage` on `event` creates a column or a card, and so needs
/// a fresh identifier and a clock reading.
pub open spec fn needs_fresh(stage: Stage, event: Event) -> bool {
    match (stage, event) {
        (Stage::PositioningColumn(..), Event::Position(Ok(max))) => max != i64::MAX,
        (Stage::PositioningCard(..), Event::Position(Ok(max))) => max != i64::MAX,
        _ => false,
    }
}

/// The request is answered with a reply that satisfies `ok`.
pub open spec fn answers(next: Stage, action: Action, ok: spec_fn(Reply) -> bool) -> bool {
    match action {
        Action::Respond(r) => next is Finished && ok(r),
        _ => false,
    }
}

/// The next stage and action of a request in `stage` that receives `event`.
pub open spec fn transition(
    stage: Stage,
    event: Event,
    fresh: Option<Fresh>,
    next: Stage,
    action: Action,
) -> bool {
    match (stage, event) {
        (Stage::ListingKanbans, Event::Kanbans(loaded)) => match loaded {
            Ok(rows) => answers(
                next,
                action,
                |r: Reply| r matches Reply::Kanbans(v) && v.deep_view() == rows.deep_view(),
            ),
            Err(_) => fails(next, action, ApiStatus::InternalError),
        },
        (Stage::CreatingKanban(k), Event::Written(written)) => match written {
            Ok(_) => answers(
                next,
                action,
                |r: Reply| r matches Reply::Kanban(s, v) && s == ApiStatus::Created && v@ == k@,
            ),
            Err(_) => fails(next, action, ApiStatus::InternalError),
        },
        (Stage::ReadingKanban(_), Event::Kanban(loaded)) => match loaded {
            Ok(row) => answers(
                next,
                action,
                |r: Reply| r matches Reply::Kanban(s, v) && s == ApiStatus::Success && v@ == row@,
            ),
            Err(e) => fails(next, action, fetch_status(e)),
        },
        (Stage::LoadingKanbanForUpdate(id, body), Event::Kanban(loaded)) => match loaded {
            Ok(cur) => match (next, action) {
                (Stage::UpdatingKanban(u), Action::UpdateKanban(a)) => a@ == u@ && u@
                    == kanban_after_update(id@, cur@, body),
                _ => false,
            },
            Err(e) => fails(next, action, fetch_status(e)),
        },
        (Stage::UpdatingKanban(u), Event::Written(written)) => match written {
            Ok(_) => answers(
                next,
                action,
                |r: Reply| r matches Reply::Kanban(s, v) && s == ApiStatus::Success && v@ == u@,
            ),
            Err(_) => fails(next, action, ApiStatus::InternalError),
        },
        (Stage::CheckingKanbanForDelete(id), Event::Kanban(loaded)) => match loaded {
            Ok(_) => match (next, action) {
                (Stage::LoadingKanbanColumns(i), Action::LoadColumns(a)) => i@ == id@ && a@ == id@,
                _ => false,
            },
            Err(e) => fails(next, action, fetch_status(e)),
        },
        (Stage::LoadingKanbanColumns(id), Event::Columns(loaded)) => match loaded {
            Ok(cols) => match (next, action) {
                (Stage::LoadingKanbanCards(i, c), Action::LoadCardsOfKanban(a)) => i@ == id@
                    && c.deep_view() == cols.deep_view() && a@ == id@,
                _ => false,
            },
            Err(_) => fails(next, action, ApiStatus::InternalError),
        },
        (Stage::LoadingKanbanCards(id, cols), Event::Cards(loaded)) => match loaded {
            Ok(cards) => match (next, action) {
                (Stage::DeletingKanban(i, c, k), Action::DeleteKanban(a)) => i@ == id@
                    && c.deep_view() == cols.deep_view() && k.deep_view() == cards.deep_view() && a@
                    == id@,
                _ => false,
            },
            Err(_) => fails(next, action, ApiStatus::InternalError),
        },
        (Stage::DeletingKanban(..), Event::Written(deleted)) => match delete_answer(deleted) {
            Ok(st) => answers(next, action, |r: Reply| r == Reply::Done(st)),
            Err(st) => fails(next, action, st),
        },
        (Stage::ListingColumns(_), Event::Columns(loaded)) => match loaded {
            Ok(rows) => answers(
                next,
                action,
                |r: Reply| r matches Reply::Columns(v) && v.deep_view() == rows.deep_view(),
            ),
            Err(_) => fails(next, action, ApiStatus::InternalError),
        },
        (Stage::PositioningColumn(kid, body), Event::Position(found)) => match found {
            Ok(max) => if max == i64::MAX {
                next is Finished && action == Action::Abort(Abort::PositionOverflow)
            } else {
                match fresh {
                    Some(f) => match f.clock {
                        None => next is Finished && action == Action::Abort(
                            Abort::ClockBeforeEpoch,
                        ),
                        Some(secs) => match (next, action) {
                            (Stage::CreatingColumn(c), Action::InsertColumn(a)) => a@ == c@ && c@
                                == (ColumnView {
                                id: f.id@,
                                kanban_id: kid@,
                                title: body.title@,
                                position: (max + 1) as i64,
                                created_at: decimal(secs as nat),
                            }),
                            _ => false,
                        },
                    },
                    None => false,
                }
            },
            Err(_) => fails(next, action, ApiStatus::InternalError),
        },
        (Stage::CreatingColumn(c), Event::Written(written)) => match written {
            Ok(_) => answers(
                next,
                action,
                |r: Reply| r matches Reply::Column(s, v) && s == ApiStatus::Created && v@ == c@,
            ),
            Err(_) => fails(next, action, ApiStatus::InternalError),
        },
        (Stage::ReadingColumn(_), Event::Column(loaded)) => match loaded {
            Ok(row) => answers(
                next,
                action,
                |r: Reply| r matches Reply::Column(s, v) && s == ApiStatus::Success && v@ == row@,
            ),
            Err(e) => fails(next, action, fetch_status(e)),
        },
        (Stage::LoadingColumnForUpdate(id, body), Event::Column(loaded)) => match loaded {
            Ok(cur) => match (next, action) {
                (Stage::UpdatingColumn(u), Action::UpdateColumn(a)) => a@ == u@ && u@
                    == column_after_update(id@, cur@, body),
                _ => false,
            },
            Err(e) => fails(next, action, fetch_status(e)),
        },
        (Stage::UpdatingColumn(u), Event::Written(written)) => match written {
            Ok(_) => answers(
                next,
                action,
                |r: Reply| r matches Reply::Column(s, v) && s == ApiStatus::Success && v@ == u@,
            ),
            Err(_) => fails(next, action, ApiStatus::InternalError),
        },
        (Stage::LoadingColumnForDelete(id), Event::Column(loaded)) => match loaded {
            Ok(col) => match (next, action) {
                (Stage::LoadingColumnCards(i, c), Action::LoadCards(a)) => i@ == id@ && c@ == col@
                    && a@ == id@,
                _ => false,
            },
            Err(e) => fails(next, action, fetch_status(e)),
        },
        (Stage::LoadingColumnCards(id, col), Event::Cards(loaded)) => match loaded {
            Ok(cards) => match (next, action) {
                (Stage::DeletingColumn(i, c, k), Action::DeleteColumn(a)) => i@ == id@ && c@ == col@
                    && k.deep_view() == cards.deep_view() && a@ == id@,
                _ => false,
            },
            Err(_) => fails(next, action, ApiStatus::InternalError),
        },
        (Stage::DeletingColumn(..), Event::Written(deleted)) => match delete_answer(deleted) {
            Ok(st) => answers(next, action, |r: Reply| r == Reply::Done(st)),
            Err(st) => fails(next, action, st),
        },
        (Stage::ListingCards(_), Event::Cards(loaded)) => match loaded {
            Ok(rows) => answers(
                next,
                action,
                |r: Reply| r matches Reply::Cards(v) && v.deep_view() == rows.deep_view(),
            ),
            Err(_) => fails(next, action, ApiStatus::InternalError),
        },
        (Stage::PositioningCard(cid, body), Event::Position(found)) => match found {
            Ok(max) => if max == i64::MAX {
                next is Finished && action == Action::Abort(Abort::PositionOverflow)
            } else {
                match fresh {
                    Some(f) => match f.clock {
                        None => next is Finished && action == Action::Abort(
                            Abort::ClockBeforeEpoch,
                        ),
                        Some(secs) => match (next, action) {
                            (Stage::CreatingCard(c), Action::InsertCard(a)) => a@ == c@ && c@ == (
                            CardView {
                                id: f.id@,
                                column_id: cid@,
                                title: body.title@,
                                description: text_or_empty(body.description),
                                position: (max + 1) as i64,
                                created_at: decimal(secs as nat),
                            }),
                            _ => false,
                        },
                    },
                    None => false,
                }
            },
            Err(_) => fails(next, action, ApiStatus::InternalError),
        },
        (Stage::CreatingCard(c), Event::Written(written)) => match written {
            Ok(_) => answers(
                next,
                action,
                |r: Reply| r matches Reply::Card(s, v) && s == ApiStatus::Created && v@ == c@,
            ),
            Err(_) => fails(next, action, ApiStatus::InternalError),
        },
        (Stage::ReadingCard(_), Event::Card(loaded)) => match loaded {
            Ok(row) => answers(
                next,
                action,
                |r: Reply| r matches Reply::Card(s, v) && s == ApiStatus::Success && v@ == row@,
            ),
            Err(e) => fails(next, action, fetch_status(e)),
        },
        (Stage::LoadingCardForUpdate(id, body), Event::Card(loaded)) => match loaded {
            Ok(cur) => match (next, action) {
                (Stage::UpdatingCard(u), Action::UpdateCard(a)) => a@ == u@ && u@
                    == card_after_update(id@, cur@, body),
                _ => false,
            },
            Err(e) => fails(next, action, fetch_status(e)),
        },
        (Stage::UpdatingCard(u), Event::Written(written)) => match written {
            Ok(_) => answers(
                next,
                action,
                |r: Reply| r matches Reply::Card(s, v) && s == ApiStatus::Success && v@ == u@,
            ),
            Err(_) => fails(next, action, ApiStatus::InternalError),
        },
        (Stage::LoadingCardForDelete(id), Event::Card(loaded)) => match loaded {
            Ok(card) => match (next, action) {
                (Stage::DeletingCard(c), Action::DeleteCard(a)) => c@ == card@ && a@ == id@,
                _ => false,
            },
            Err(e) => fails(next, action, fetch_status(e)),
        },
        (Stage::DeletingCard(_), Event::Written(deleted)) => match delete_answer(deleted) {
            Ok(st) => answers(next, action, |r: Reply| r == Reply::Done(st)),
            Err(st) => fails(next, action, st),
        },
        _ => false,
    }
}

/// The cache operations a request in `stage` performs when it receives
/// `event`: none until it has its answer; then those of its handler.
pub open spec fn step_cache_ops(stage: Stage, event: Event) -> Seq<CacheOpView> {
    match (stage, event) {
        (Stage::ListingKanbans, Event::Kanbans(Ok(rows))) => kanbans_listed_plan(rows.deep_view()),
        (Stage::CreatingKanban(k), Event::Written(Ok(_))) => kanban_created_plan(k@),
        (Stage::ReadingKanban(id), Event::Kanban(Ok(row))) => kanban_read_plan(id@, row@),
        (Stage::UpdatingKanban(u), Event::Written(Ok(_))) => kanban_updated_plan(u.id@, u@),
        (Stage::DeletingKanban(id, cols, cards), Event::Written(deleted)) => if delete_answer(
            deleted,
        ) is Ok {
            kanban_deleted_plan(id@, cols.deep_view(), cards.deep_view())
        } else {
            Seq::empty()
        },
        (Stage::ListingColumns(kid), Event::Columns(Ok(rows))) => columns_listed_plan(
            kid@,
            rows.deep_view(),
        ),
        (Stage::CreatingColumn(c), Event::Written(Ok(_))) => column_created_plan(c@),
        (Stage::ReadingColumn(id), Event::Column(Ok(row))) => column_read_plan(id@, row@),
        (Stage::UpdatingColumn(u), Event::Written(Ok(_))) => column_updated_plan(u.id@, u@),
        (Stage::DeletingColumn(id, col, cards), Event::Written(deleted)) => if delete_answer(
            deleted,
        ) is Ok {
            column_deleted_plan(id@, col@, cards.deep_view())
        } else {
            Seq::empty()
        },
        (Stage::ListingCards(cid), Event::Cards(Ok(rows))) => cards_listed_plan(
            cid@,
            rows.deep_view(),
        ),
        (Stage::CreatingCard(c), Event::Written(Ok(_))) => card_created_plan(c@),
        (Stage::ReadingCard(id), Event::Card(Ok(row))) => card_read_plan(id@, row@),
        (Stage::UpdatingCard(u), Event::Written(Ok(_))) => card_updated_plan(u.id@, u@),
        (Stage::DeletingCard(card), Event::Written(deleted)) => if delete_answer(deleted) is Ok {
            card_deleted_plan(card@)
        } else {
            Seq::empty()
        },
        _ => Seq::empty(),
    }
}

fn kanban_reply(r: Result<Kanban, ApiStatus>, success: ApiStatus) -> (a: Action)
    ensures
        match r {
            Ok(v) => a matches Action::Respond(Reply::Kanban(s, w)) && s == success && w@ == v@,
            Err(st) => a == Action::Respond(Reply::Failed(st)),
        },
{
    match r {
        Ok(v) => Action::Respond(Reply::Kanban(success, v)),
        Err(st) => Action::Respond(Reply::Failed(st)),
    }
}

fn column_reply(r: Result<Column, ApiStatus>, success: ApiStatus) -> (a: Action)
    ensures
        match r {
            Ok(v) => a matches Action::Respond(Reply::Column(s, w)) && s == success && w@ == v@,
            Err(st) => a == Action::Respond(Reply::Failed(st)),
        },
{
    match r {
        Ok(v) => Action::Respond(Reply::Column(success, v)),
        Err(st) => Action::Respond(Reply::Failed(st)),
    }
}

fn card_reply(r: Result<Card, ApiStatus>, success: ApiStatus) -> (a: Action)
    ensures
        match r {
            Ok(v) => a matches Action::Respond(Reply::Card(s, w)) && s == success && w@ == v@,
            Err(st) => a == Action::Respond(Reply::Failed(st)),
        },
{
    match r {
        Ok(v) => Action::Respond(Reply::Card(success, v)),
        Err(st) => Action::Respond(Reply::Failed(st)),
    }
}

fn status_reply(r: Result<ApiStatus, ApiStatus>) -> (a: Action)
    ensures
        match r {
            Ok(st) => a == Action::Respond(Reply::Done(st)),
            Err(st) => a == Action::Respond(Reply::Failed(st)),
        },
{
    match r {
        Ok(st) => Action::Respond(Reply::Done(st)),
        Err(st) => Action::Respond(Reply::Failed(st)),
    }
}

fn failed(st: ApiStatus) -> (r: (Stage, Action, Vec<CacheOp>))
    ensures
        fails(r.0, r.1, st),
        r.2.len() == 0,
{
    (Stage::Finished, Action::Respond(Reply::Failed(st)), Vec::new())
}

/// Whether `event` is the kind of result the request in `stage` waits for.
pub fn accepts(stage: &Stage, event: &Event) -> (b: bool)
    ensures
        b == awaits(*stage, *event),
{
    match (stage, event) {
        (Stage::ListingKanbans, Event::Kanbans(_)) => true,
        (Stage::ReadingKanban(_), Event::Kanban(_)) => true,
        (Stage::LoadingKanbanForUpdate(..), Event::Kanban(_)) => true,
        (Stage::CheckingKanbanForDelete(_), Event::Kanban(_)) => true,
        (Stage::LoadingKanbanColumns(_), Event::Columns(_)) => true,
        (Stage::LoadingKanbanCards(..), Event::Cards(_)) => true,
        (Stage::ListingColumns(_), Event::Columns(_)) => true,
        (Stage::ReadingColumn(_), Event::Column(_)) => true,
        (Stage::LoadingColumnForUpdate(..), Event::Column(_)) => true,
        (Stage::LoadingColumnForDelete(_), Event::Column(_)) => true,
        (Stage::LoadingColumnCards(..), Event::Cards(_)) => true,
        (Stage::ListingCards(_), Event::Cards(_)) => true,
        (Stage::ReadingCard(_), Event::Card(_)) => true,
        (Stage::LoadingCardForUpdate(..), Event::Card(_)) => true,
        (Stage::LoadingCardForDelete(_), Event::Card(_)) => true,
        (Stage::PositioningColumn(..), Event::Position(_)) => true,
        (Stage::PositioningCard(..), Event::Position(_)) => true,
        (Stage::CreatingKanban(_), Event::Written(_)) => true,
        (Stage::UpdatingKanban(_), Event::Written(_)) => true,
        (Stage::DeletingKanban(..), Event::Written(_)) => true,
        (Stage::CreatingColumn(_), Event::Written(_)) => true,
        (Stage::UpdatingColumn(_), Event::Written(_)) => true,
        (Stage::DeletingColumn(..), Event::Written(_)) => true,
        (Stage::CreatingCard(_), Event::Written(_)) => true,
        (Stage::UpdatingCard(_), Event::Written(_)) => true,
        (Stage::DeletingCard(_), Event::Written(_)) => true,
        _ => false,
    }
}

/// Whether the hit is of the kind the request reads.
pub fn fits(request: &Request, hit: &CacheHit) -> (b: bool)
    ensures
        b == hit_fits(*request, *hit),
{
    match (request, hit) {
        (Request::ListKanbans, CacheHit::KanbanList(_)) => true,
        (Request::GetKanban(_), CacheHit::Kanban(_)) => true,
        (Request::ListColumns(_), CacheHit::ColumnList(_)) => true,
        (Request::GetColumn(_), CacheHit::Column(_)) => true,
        (Request::ListCards(_), CacheHit::CardList(_)) => true,
        (Request::GetCard(_), CacheHit::Card(_)) => true,
        _ => false,
    }
}

/// The answer to a request found in the cache: what the cache held, as is.
pub fn cached_reply(hit: CacheHit) -> (a: Action)
    ensures
        a == answer_of_hit(hit),
{
    match hit {
        CacheHit::KanbanList(v) => Action::Respond(Reply::Kanbans(v)),
        CacheHit::Kanban(k) => Action::Respond(Reply::Kanban(ApiStatus::Success, k)),
        CacheHit::ColumnList(v) => Action::Respond(Reply::Columns(v)),
        CacheHit::Column(c) => Action::Respond(Reply::Column(ApiStatus::Success, c)),
        CacheHit::CardList(v) => Action::Respond(Reply::Cards(v)),
        CacheHit::Card(c) => Action::Respond(Reply::Card(ApiStatus::Success, c)),
    }
}

/// Looks the request up in the cache: a list or get request looks in the
/// cache of its kind under its key (the list of all boards under
/// `KANBAN_LIST_KEY`), and a hit is what the caches hold there; it may miss
/// where the entry expired or was evicted. No other request is looked up.
pub fn look_up(cache: &AppCache, request: &Request) -> (hit: Option<CacheHit>)
    ensures
        hit matches Some(h) ==> hit_fits(*request, h) && hit_held(cache@, *request, h),
{
    match request {
        Request::ListKanbans => match cache.cached_kanban_list() {
            Some(v) => Some(CacheHit::KanbanList(v)),
            None => None,
        },
        Request::GetKanban(id) => match cache.cached_kanban(id.as_str()) {
            Some(k) => Some(CacheHit::Kanban(k)),
            None => None,
        },
        Request::ListColumns(kid) => match cache.cached_column_list(kid.as_str()) {
            Some(v) => Some(CacheHit::ColumnList(v)),
            None => None,
        },
        Request::GetColumn(id) => match cache.cached_column(id.as_str()) {
            Some(c) => Some(CacheHit::Column(c)),
            None => None,
        },
        Request::ListCards(cid) => match cache.cached_card_list(cid.as_str()) {
            Some(v) => Some(CacheHit::CardList(v)),
            None => None,
        },
        Request::GetCard(id) => match cache.cached_card(id.as_str()) {
            Some(c) => Some(CacheHit::Card(c)),
            None => None,
        },
        _ => None,
    }
}

/// A fresh identifier and clock reading where the request creates a board.
pub fn fresh_for_request(request: &Request) -> (fresh: Option<Fresh>)
    ensures
        fresh is Some <==> request is CreateKanban,
        fresh matches Some(f) ==> is_v4_uuid_text(f.id@),
{
    match request {
        Request::CreateKanban(_) => Some(draw_fresh()),
        _ => None,
    }
}

/// A fresh identifier and clock reading where the step creates a column or a
/// card.
pub fn fresh_for(stage: &Stage, event: &Event) -> (fresh: Option<Fresh>)
    ensures
        fresh is Some <==> needs_fresh(*stage, *event),
        fresh matches Some(f) ==> is_v4_uuid_text(f.id@),
{
    match (stage, event) {
        (Stage::PositioningColumn(..), Event::Position(Ok(max))) => if *max != i64::MAX {
            Some(draw_fresh())
        } else {
            None
        },
        (Stage::PositioningCard(..), Event::Position(Ok(max))) => if *max != i64::MAX {
            Some(draw_fresh())
        } else {
            None
        },
        _ => None,
    }
}

/// Starts a request: a list or get request whose answer was found in the
/// cache (`hit`) is answered with exactly what the cache held; any other
/// request enters its first stage and issues its first action (a create of a
/// board first makes the board from `fresh`). Each later step lowers
/// `steps_left`, so a request is answered after at most four database actions.
pub fn start(request: Request, hit: Option<CacheHit>, fresh: Option<Fresh>) -> (r: (Stage, Action))
    requires
        request is CreateKanban ==> fresh is Some,
    ensures
        served_from_cache(request, hit) ==> r.0 is Finished && r.1 == answer_of_hit(hit->0),
        !served_from_cache(request, hit) ==> starts(request, fresh, r.0, r.1),
        steps_left(r.0) <= 4,
        !served_from_cache(request, hit) ==> ({
            match request {
                Request::ListKanbans => r.0 is ListingKanbans && r.1 is LoadKanbans,
                Request::CreateKanban(body) => match (fresh, r.0, r.1) {
                    (Some(f), Stage::CreatingKanban(s), Action::InsertKanban(k)) => match f.clock {
                        Some(secs) => s@ == k@ && k.id@ == f.id@ && k.title@ == body.title@
                            && k.created_at@ == decimal(secs as nat),
                        None => false,
                    },
                    (Some(f), Stage::Finished, Action::Abort(why)) => f.clock is None && why
                        == Abort::ClockBeforeEpoch,
                    _ => false,
                },
                Request::GetKanban(id) => match (r.0, r.1) {
                    (Stage::ReadingKanban(i), Action::LoadKanban(a)) => i@ == id@ && a@ == id@,
                    _ => false,
                },
                Request::UpdateKanban(id, _) => match (r.0, r.1) {
                    (Stage::LoadingKanbanForUpdate(i, _), Action::LoadKanban(a)) => i@ == id@ && a@ == id@,
                    _ => false,
                },
                Request::DeleteKanban(id) => match (r.0, r.1) {
                    (Stage::CheckingKanbanForDelete(i), Action::LoadKanban(a)) => i@ == id@ && a@ == id@,
                    _ => false,
                },
                Request::ListColumns(kid) => match (r.0, r.1) {
                    (Stage::ListingColumns(i), Action::LoadColumns(a)) => i@ == kid@ && a@ == kid@,
                    _ => false,
                },
                Request::CreateColumn(kid, _) => match (r.0, r.1) {
                    (Stage::PositioningColumn(i, _), Action::LoadMaxColumnPosition(a)) => i@ == kid@ && a@ == kid@,
                    _ => false,
                },
                Request::GetColumn(id) => match (r.0, r.1) {
                    (Stage::ReadingColumn(i), Action::LoadColumn(a)) => i@ == id@ && a@ == id@,
                    _ => false,
                },
                Request::UpdateColumn(id, _) => match (r.0, r.1) {
                    (Stage::LoadingColumnForUpdate(i, _), Action::LoadColumn(a)) => i@ == id@ && a@ == id@,
                    _ => false,
                },
                Request::DeleteColumn(id) => match (r.0, r.1) {
                    (Stage::LoadingColumnForDelete(i), Action::LoadColumn(a)) => i@ == id@ && a@ == id@,
                    _ => false,
                },
                Request::ListCards(cid) => match (r.0, r.1) {
                    (Stage::ListingCards(i), Action::LoadCards(a)) => i@ == cid@ && a@ == cid@,
                    _ => false,
                },
                Request::CreateCard(cid, _) => match (r.0, r.1) {
                    (Stage::PositioningCard(i, _), Action::LoadMaxCardPosition(a)) => i@ == cid@ && a@ == cid@,
                    _ => false,
                },
                Request::GetCard(id) => match (r.0, r.1) {
                    (Stage::ReadingCard(i), Action::LoadCard(a)) => i@ == id@ && a@ == id@,
                    _ => false,
                },
                Request::UpdateCard(id, _) => match (r.0, r.1) {
                    (Stage::LoadingCardForUpdate(i, _), Action::LoadCard(a)) => i@ == id@ && a@ == id@,
                    _ => false,
                },
                Request::DeleteCard(id) => match (r.0, r.1) {
                    (Stage::LoadingCardForDelete(i), Action::LoadCard(a)) => i@ == id@ && a@ == id@,
                    _ => false,
                },
            }
        }),
{
    if let Some(h) = hit {
        if fits(&request, &h) {
            return (Stage::Finished, cached_reply(h));
        }
    }
    match request {
        Request::ListKanbans => (Stage::ListingKanbans, Action::LoadKanbans),
        Request::CreateKanban(body) => match fresh {
            Some(f) => match kanban_from(body, f) {
                Some(k) => (Stage::CreatingKanban(k.duplicate()), Action::InsertKanban(k)),
                None => (Stage::Finished, Action::Abort(Abort::ClockBeforeEpoch)),
            },
            None => (Stage::Finished, Action::Respond(Reply::Failed(ApiStatus::InternalError))),
        },
        Request::GetKanban(id) => (Stage::ReadingKanban(id.clone()), Action::LoadKanban(id)),
        Request::UpdateKanban(id, body) => (
            Stage::LoadingKanbanForUpdate(id.clone(), body),
            Action::LoadKanban(id),
        ),
        Request::DeleteKanban(id) => (Stage::CheckingKanbanForDelete(id.clone()), Action::LoadKanban(id)),
        Request::ListColumns(kid) => (Stage::ListingColumns(kid.clone()), Action::LoadColumns(kid)),
        Request::CreateColumn(kid, body) => (
            Stage::PositioningColumn(kid.clone(), body),
            Action::LoadMaxColumnPosition(kid),
        ),
        Request::GetColumn(id) => (Stage::ReadingColumn(id.clone()), Action::LoadColumn(id)),
        Request::UpdateColumn(id, body) => (
            Stage::LoadingColumnForUpdate(id.clone(), body),
            Action::LoadColumn(id),
        ),
        Request::DeleteColumn(id) => (Stage::LoadingColumnForDelete(id.clone()), Action::LoadColumn(id)),
        Request::ListCards(cid) => (Stage::ListingCards(cid.clone()), Action::LoadCards(cid)),
        Request::CreateCard(cid, body) => (
            Stage::PositioningCard(cid.clone(), body),
            Action::LoadMaxCardPosition(cid),
        ),
        Request::GetCard(id) => (Stage::ReadingCard(id.clone()), Action::LoadCard(id)),
        Request::UpdateCard(id, body) => (
            Stage::LoadingCardForUpdate(id.clone(), body),
            Action::LoadCard(id),
        ),
        Request::DeleteCard(id) => (Stage::LoadingCardForDelete(id.clone()), Action::LoadCard(id)),
    }
}


/// Starts a request as `start` does, with what the cache holds for it and,
/// for a create of a board, a fresh identifier and clock reading.
pub fn begin(cache: &AppCache, request: Request) -> (r: (Stage, Action))
    ensures
        (exists|h: CacheHit|
            #[trigger] hit_held(cache@, request, h) && r.0 is Finished && r.1 == answer_of_hit(h))
            || (exists|f: Option<Fresh>|
            (f matches Some(x) ==> is_v4_uuid_text(x.id@)) && #[trigger] starts(
                request,
                f,
                r.0,
                r.1,
            )),
        steps_left(r.0) <= 4,
{
    let hit = look_up(cache, &request);
    let fresh = fresh_for_request(&request);
    let ghost (q, h, f) = (request, hit, fresh);
    let r = start(request, hit, fresh);
    proof {
        if served_from_cache(q, h) {
            assert(hit_held(cache@, q, h->0));
        } else {
            assert(starts(q, f, r.0, r.1));
        }
    }
    r
}

/// The decision of a request in `stage` that receives `event`: its next
/// stage, its next action, and the cache operations to perform.
pub fn decide(stage: Stage, event: Event, fresh: Option<Fresh>) -> (r: (
    Stage,
    Action,
    Vec<CacheOp>,
))
    requires
        awaits(stage, event),
        needs_fresh(stage, event) ==> fresh is Some,
    ensures
        transition(stage, event, fresh, r.0, r.1),
        r.2.deep_view() == step_cache_ops(stage, event),
        steps_left(r.0) < steps_left(stage),
        ({
            match (stage, event) {
                (Stage::CheckingKanbanForDelete(id), Event::Kanban(Ok(_))) => match (r.0, r.1) {
                    (Stage::LoadingKanbanColumns(i), Action::LoadColumns(a)) => i@ == id@ && a@
                        == id@,
                    _ => false,
                },
                (Stage::LoadingKanbanColumns(id), Event::Columns(Ok(cols))) => match (r.0, r.1) {
                    (Stage::LoadingKanbanCards(i, c), Action::LoadCardsOfKanban(a)) => i@ == id@
                        && a@ == id@ && c.deep_view() == cols.deep_view(),
                    _ => false,
                },
                (Stage::LoadingKanbanCards(id, _), Event::Cards(Ok(_))) => match (r.0, r.1) {
                    (Stage::DeletingKanban(i, _, _), Action::DeleteKanban(a)) => i@ == id@ && a@
                        == id@,
                    _ => false,
                },
                (Stage::LoadingColumnForDelete(id), Event::Column(Ok(col))) => match (r.0, r.1) {
                    (Stage::LoadingColumnCards(i, c), Action::LoadCards(a)) => i@ == id@ && a@
                        == id@ && c@ == col@,
                    _ => false,
                },
                (Stage::LoadingColumnCards(id, _), Event::Cards(Ok(_))) => match (r.0, r.1) {
                    (Stage::DeletingColumn(i, _, _), Action::DeleteColumn(a)) => i@ == id@ && a@
                        == id@,
                    _ => false,
                },
                (Stage::LoadingCardForDelete(id), Event::Card(Ok(card))) => match (r.0, r.1) {
                    (Stage::DeletingCard(c), Action::DeleteCard(a)) => a@ == id@ && c@ == card@,
                    _ => false,
                },
                (Stage::LoadingKanbanForUpdate(id, body), Event::Kanban(Ok(cur))) => match (
                    r.0,
                    r.1,
                ) {
                    (Stage::UpdatingKanban(u), Action::UpdateKanban(a)) => {
                        &&& u@ == a@
                        &&& a.id@ == id@
                        &&& a.title@ == match body.title {
                            Some(t) => t@,
                            None => cur.title@,
                        }
                        &&& a.description@ == match body.description {
                            Some(t) => t@,
                            None => cur.description@,
                        }
                        &&& a.created_at@ == cur.created_at@
                    },
                    _ => false,
                },
                (Stage::LoadingColumnForUpdate(id, body), Event::Column(Ok(cur))) => match (
                    r.0,
                    r.1,
                ) {
                    (Stage::UpdatingColumn(u), Action::UpdateColumn(a)) => {
                        &&& u@ == a@
                        &&& a.id@ == id@
                        &&& a.title@ == match body.title {
                            Some(t) => t@,
                            None => cur.title@,
                        }
                        &&& a.kanban_id@ == cur.kanban_id@
                        &&& a.position == cur.position
                        &&& a.created_at@ == cur.created_at@
                    },
                    _ => false,
                },
                (Stage::LoadingCardForUpdate(id, body), Event::Card(Ok(cur))) => match (r.0, r.1) {
                    (Stage::UpdatingCard(u), Action::UpdateCard(a)) => {
                        &&& u@ == a@
                        &&& a.id@ == id@
                        &&& a.title@ == match body.title {
                            Some(t) => t@,
                            None => cur.title@,
                        }
                        &&& a.description@ == match body.description {
                            Some(t) => t@,
                            None => cur.description@,
                        }
                        &&& a.column_id@ == cur.column_id@
                        &&& a.position == cur.position
                        &&& a.created_at@ == cur.created_at@
                    },
                    _ => false,
                },
                (Stage::PositioningColumn(kid, body), Event::Position(Ok(max))) => if max
                    == i64::MAX {
                    r.0 is Finished && r.1 == Action::Abort(Abort::PositionOverflow)
                } else {
                    match (fresh, r.0, r.1) {
                        (Some(f), Stage::CreatingColumn(s), Action::InsertColumn(c)) => match f.clock {
                            Some(secs) => s@ == c@ && c.id@ == f.id@ && c.kanban_id@ == kid@
                                && c.title@ == body.title@ && c.position == max + 1 && c.created_at@
                                == decimal(secs as nat),
                            None => false,
                        },
                        (Some(f), Stage::Finished, Action::Abort(why)) => f.clock is None && why
                            == Abort::ClockBeforeEpoch,
                        _ => false,
                    }
                },
                (Stage::PositioningCard(cid, body), Event::Position(Ok(max))) => if max
                    == i64::MAX {
                    r.0 is Finished && r.1 == Action::Abort(Abort::PositionOverflow)
                } else {
                    match (fresh, r.0, r.1) {
                        (Some(f), Stage::CreatingCard(s), Action::InsertCard(c)) => match f.clock {
                            Some(secs) => s@ == c@ && c.id@ == f.id@ && c.column_id@ == cid@
                                && c.title@ == body.title@ && c.position == max + 1 && c.created_at@
                                == decimal(secs as nat),
                            None => false,
                        },
                        (Some(f), Stage::Finished, Action::Abort(why)) => f.clock is None && why
                            == Abort::ClockBeforeEpoch,
                        _ => false,
                    }
                },
                _ => true,
            }
        }),
{
    match stage {
        Stage::ListingKanbans => match event {
            Event::Kanbans(loaded) => {
                let (reply, ops) = kanbans_listed(loaded);
                match reply {
                    Ok(rows) => (Stage::Finished, Action::Respond(Reply::Kanbans(rows)), ops),
                    Err(st) => (Stage::Finished, Action::Respond(Reply::Failed(st)), ops),
                }
            },
            _ => failed(ApiStatus::InternalError),
        },
        Stage::CreatingKanban(k) => match event {
            Event::Written(written) => {
                let done = match written {
                    Ok(_) => Ok(()),
                    Err(e) => Err(e),
                };
                let (reply, ops) = kanban_created(k, done);
                match reply {
                    Ok((st, v)) => (Stage::Finished, Action::Respond(Reply::Kanban(st, v)), ops),
                    Err(st) => (Stage::Finished, Action::Respond(Reply::Failed(st)), ops),
                }
            },
            _ => failed(ApiStatus::InternalError),
        },
        Stage::ReadingKanban(id) => match event {
            Event::Kanban(loaded) => {
                let (reply, ops) = kanban_read(id, loaded);
                (Stage::Finished, kanban_reply(reply, ApiStatus::Success), ops)
            },
            _ => failed(ApiStatus::InternalError),
        },
        Stage::LoadingKanbanForUpdate(id, body) => match event {
            Event::Kanban(loaded) => match kanban_to_update(id, loaded, body) {
                Ok(u) => (Stage::UpdatingKanban(u.duplicate()), Action::UpdateKanban(u), Vec::new()),
                Err(st) => failed(st),
            },
            _ => failed(ApiStatus::InternalError),
        },
        Stage::UpdatingKanban(u) => match event {
            Event::Written(written) => {
                let done = match written {
                    Ok(_) => Ok(()),
                    Err(e) => Err(e),
                };
                let (reply, ops) = kanban_updated(u.id.clone(), u, done);
                (Stage::Finished, kanban_reply(reply, ApiStatus::Success), ops)
            },
            _ => failed(ApiStatus::InternalError),
        },
        Stage::CheckingKanbanForDelete(id) => match event {
            Event::Kanban(loaded) => match loaded {
                Ok(_) => (Stage::LoadingKanbanColumns(id.clone()), Action::LoadColumns(id), Vec::new()),
                Err(e) => failed(map_fetch_one_error(e)),
            },
            _ => failed(ApiStatus::InternalError),
        },
        Stage::LoadingKanbanColumns(id) => match event {
            Event::Columns(loaded) => match loaded {
                Ok(cols) => (
                    Stage::LoadingKanbanCards(id.clone(), cols),
                    Action::LoadCardsOfKanban(id),
                    Vec::new(),
                ),
                Err(_) => failed(ApiStatus::InternalError),
            },
            _ => failed(ApiStatus::InternalError),
        },
        Stage::LoadingKanbanCards(id, cols) => match event {
            Event::Cards(loaded) => match loaded {
                Ok(cards) => (
                    Stage::DeletingKanban(id.clone(), cols, cards),
                    Action::DeleteKanban(id),
                    Vec::new(),
                ),
                Err(_) => failed(ApiStatus::InternalError),
            },
            _ => failed(ApiStatus::InternalError),
        },
        Stage::DeletingKanban(id, cols, cards) => match event {
            Event::Written(deleted) => {
                let (reply, ops) = kanban_deleted(id, cols, cards, deleted);
                (Stage::Finished, status_reply(reply), ops)
            },
            _ => failed(ApiStatus::InternalError),
        },
        Stage::ListingColumns(kid) => match event {
            Event::Columns(loaded) => {
                let (reply, ops) = columns_listed(kid, loaded);
                match reply {
                    Ok(rows) => (Stage::Finished, Action::Respond(Reply::Columns(rows)), ops),
                    Err(st) => (Stage::Finished, Action::Respond(Reply::Failed(st)), ops),
                }
            },
            _ => failed(ApiStatus::InternalError),
        },
        Stage::PositioningColumn(kid, body) => match event {
            Event::Position(found) => match found {
                Ok(max) => {
                    if max == i64::MAX {
                        (Stage::Finished, Action::Abort(Abort::PositionOverflow), Vec::new())
                    } else {
                        match fresh {
                            Some(f) => match column_from(kid, body, max, f) {
                                Some(c) => (
                                    Stage::CreatingColumn(c.duplicate()),
                                    Action::InsertColumn(c),
                                    Vec::new(),
                                ),
                                None => (
                                    Stage::Finished,
                                    Action::Abort(Abort::ClockBeforeEpoch),
                                    Vec::new(),
                                ),
                            },
                            None => failed(ApiStatus::InternalError),
                        }
                    }
                },
                Err(_) => failed(ApiStatus::InternalError),
            },
            _ => failed(ApiStatus::InternalError),
        },
        Stage::CreatingColumn(c) => match event {
            Event::Written(written) => {
                let done = match written {
                    Ok(_) => Ok(()),
                    Err(e) => Err(e),
                };
                let (reply, ops) = column_created(c, done);
                match reply {
                    Ok((st, v)) => (Stage::Finished, Action::Respond(Reply::Column(st, v)), ops),
                    Err(st) => (Stage::Finished, Action::Respond(Reply::Failed(st)), ops),
                }
            },
            _ => failed(ApiStatus::InternalError),
        },
        Stage::ReadingColumn(id) => match event {
            Event::Column(loaded) => {
                let (reply, ops) = column_read(id, loaded);
                (Stage::Finished, column_reply(reply, ApiStatus::Success), ops)
            },
            _ => failed(ApiStatus::InternalError),
        },
        Stage::LoadingColumnForUpdate(id, body) => match event {
            Event::Column(loaded) => match column_to_update(id, loaded, body) {
                Ok(u) => (Stage::UpdatingColumn(u.duplicate()), Action::UpdateColumn(u), Vec::new()),
                Err(st) => failed(st),
            },
            _ => failed(ApiStatus::InternalError),
        },
        Stage::UpdatingColumn(u) => match event {
            Event::Written(written) => {
                let done = match written {
                    Ok(_) => Ok(()),
                    Err(e) => Err(e),
                };
                let (reply, ops) = column_updated(u.id.clone(), u, done);
                (Stage::Finished, column_reply(reply, ApiStatus::Success), ops)
            },
            _ => failed(ApiStatus::InternalError),
        },
        Stage::LoadingColumnForDelete(id) => match event {
            Event::Column(loaded) => match loaded {
                Ok(col) => (Stage::LoadingColumnCards(id.clone(), col), Action::LoadCards(id), Vec::new()),
                Err(e) => failed(map_fetch_one_error(e)),
            },
            _ => failed(ApiStatus::InternalError),
        },
        Stage::LoadingColumnCards(id, col) => match event {
            Event::Cards(loaded) => match loaded {
                Ok(cards) => (
                    Stage::DeletingColumn(id.clone(), col, cards),
                    Action::DeleteColumn(id),
                    Vec::new(),
                ),
                Err(_) => failed(ApiStatus::InternalError),
            },
            _ => failed(ApiStatus::InternalError),
        },
        Stage::DeletingColumn(id, col, cards) => match event {
            Event::Written(deleted) => {
                let (reply, ops) = column_deleted(id, col, cards, deleted);
                (Stage::Finished, status_reply(reply), ops)
            },
            _ => failed(ApiStatus::InternalError),
        },
        Stage::ListingCards(cid) => match event {
            Event::Cards(loaded) => {
                let (reply, ops) = cards_listed(cid, loaded);
                match reply {
                    Ok(rows) => (Stage::Finished, Action::Respond(Reply::Cards(rows)), ops),
                    Err(st) => (Stage::Finished, Action::Respond(Reply::Failed(st)), ops),
                }
            },
            _ => failed(ApiStatus::InternalError),
        },
        Stage::PositioningCard(cid, body) => match event {
            Event::Position(found) => match found {
                Ok(max) => {
                    if max == i64::MAX {
                        (Stage::Finished, Action::Abort(Abort::PositionOverflow), Vec::new())
                    } else {
                        match fresh {
                            Some(f) => match card_from(cid, body, max, f) {
                                Some(c) => (
                                    Stage::CreatingCard(c.duplicate()),
                                    Action::InsertCard(c),
                                    Vec::new(),
                                ),
                                None => (
                                    Stage::Finished,
                                    Action::Abort(Abort::ClockBeforeEpoch),
                                    Vec::new(),
                                ),
                            },
                            None => failed(ApiStatus::InternalError),
                        }
                    }
                },
                Err(_) => failed(ApiStatus::InternalError),
            },
            _ => failed(ApiStatus::InternalError),
        },
        Stage::CreatingCard(c) => match event {
            Event::Written(written) => {
                let done = match written {
                    Ok(_) => Ok(()),
                    Err(e) => Err(e),
                };
                let (reply, ops) = card_created(c, done);
                match reply {
                    Ok((st, v)) => (Stage::Finished, Action::Respond(Reply::Card(st, v)), ops),
                    Err(st) => (Stage::Finished, Action::Respond(Reply::Failed(st)), ops),
                }
            },
            _ => failed(ApiStatus::InternalError),
        },
        Stage::ReadingCard(id) => match event {
            Event::Card(loaded) => {
                let (reply, ops) = card_read(id, loaded);
                (Stage::Finished, card_reply(reply, ApiStatus::Success), ops)
            },
            _ => failed(ApiStatus::InternalError),
        },
        Stage::LoadingCardForUpdate(id, body) => match event {
            Event::Card(loaded) => match card_to_update(id, loaded, body) {
                Ok(u) => (Stage::UpdatingCard(u.duplicate()), Action::UpdateCard(u), Vec::new()),
                Err(st) => failed(st),
            },
            _ => failed(ApiStatus::InternalError),
        },
        Stage::UpdatingCard(u) => match event {
            Event::Written(written) => {
                let done = match written {
                    Ok(_) => Ok(()),
                    Err(e) => Err(e),
                };
                let (reply, ops) = card_updated(u.id.clone(), u, done);
                (Stage::Finished, card_reply(reply, ApiStatus::Success), ops)
            },
            _ => failed(ApiStatus::InternalError),
        },
        Stage::LoadingCardForDelete(id) => match event {
            Event::Card(loaded) => match loaded {
                Ok(card) => (Stage::DeletingCard(card), Action::DeleteCard(id), Vec::new()),
                Err(e) => failed(map_fetch_one_error(e)),
            },
            _ => failed(ApiStatus::InternalError),
        },
        Stage::DeletingCard(card) => match event {
            Event::Written(deleted) => {
                let (reply, ops) = card_deleted(card, deleted);
                (Stage::Finished, status_reply(reply), ops)
            },
            _ => failed(ApiStatus::InternalError),
        },
        Stage::Finished => failed(ApiStatus::InternalError),
    }
}

/// Moves a request on by one event: draws a fresh identifier and reads the
/// clock where the step creates a column or a card, decides as `decide` does,
/// and performs the decided cache operations.
pub fn advance(cache: &mut AppCache, stage: Stage, event: Event) -> (r: (Stage, Action))
    requires
        awaits(stage, event),
    ensures
        final(cache)@ == apply_ops(old(cache)@, step_cache_ops(stage, event)),
        final(cache).same_limits(old(cache)),
        exists|f: Option<Fresh>|
            (f matches Some(x) ==> is_v4_uuid_text(x.id@)) && #[trigger] transition(
                stage,
                event,
                f,
                r.0,
                r.1,
            ),
        steps_left(r.0) < steps_left(stage),
{
    let fresh = fresh_for(&stage, &event);
    let ghost (st, ev, f) = (stage, event, fresh);
    let (next, action, ops) = decide(stage, event, fresh);
    cache.apply(&ops);
    proof {
        assert(transition(st, ev, f, next, action));
    }
    (next, action)
}

} // verus!
