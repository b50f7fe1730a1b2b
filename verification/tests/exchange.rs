use kanban::cache::AppCache;
use kanban::exchange::{
    accepts, advance, begin, cached_reply, decide, start, Abort, Action, CacheHit, Event, Reply,
    Request, Stage,
};
use kanban::model::{Card, Column, CreateCard, CreateColumn, CreateKanban, Fresh, Kanban, UpdateKanban};
use kanban::status::{ApiStatus, DbError, FetchError};

fn board(id: &str) -> Kanban {
    Kanban {
        id: id.to_string(),
        title: "Board".to_string(),
        description: "about".to_string(),
        created_at: "100".to_string(),
    }
}

fn column(id: &str, kanban_id: &str) -> Column {
    Column {
        id: id.to_string(),
        kanban_id: kanban_id.to_string(),
        title: "Col".to_string(),
        position: 0,
        created_at: "200".to_string(),
    }
}

fn card(id: &str, column_id: &str) -> Card {
    Card {
        id: id.to_string(),
        column_id: column_id.to_string(),
        title: "Card".to_string(),
        description: String::new(),
        position: 0,
        created_at: "300".to_string(),
    }
}

#[test]
fn get_reads_the_database_then_answers_from_the_cache() {
    let mut cache = AppCache::new();
    let (stage, action) = begin(&cache, Request::GetKanban("b1".to_string()));
    assert!(matches!(action, Action::LoadKanban(ref id) if id == "b1"));
    let event = Event::Kanban(Ok(board("b1")));
    assert!(accepts(&stage, &event));
    let (stage, action) = advance(&mut cache, stage, event);
    assert!(matches!(stage, Stage::Finished));
    assert!(matches!(action, Action::Respond(Reply::Kanban(ApiStatus::Success, ref k)) if k.id == "b1"));

    let (stage, action) = begin(&cache, Request::GetKanban("b1".to_string()));
    assert!(matches!(stage, Stage::Finished));
    assert!(matches!(action, Action::Respond(Reply::Kanban(ApiStatus::Success, ref k)) if k.title == "Board"));
}

#[test]
fn missing_board_is_not_found() {
    let mut cache = AppCache::new();
    let (stage, _) = begin(&cache, Request::GetKanban("zz".to_string()));
    let (_, action) = advance(&mut cache, stage, Event::Kanban(Err(FetchError::RowNotFound)));
    assert!(matches!(action, Action::Respond(Reply::Failed(ApiStatus::NotFound))));
    assert!(cache.cached_kanban("zz").is_none());
}

#[test]
fn create_board_inserts_then_answers_created() {
    let mut cache = AppCache::new();
    let (stage, action) = begin(
        &cache,
        Request::CreateKanban(CreateKanban { title: "New".to_string(), description: None }),
    );
    let inserted = match action {
        Action::InsertKanban(k) => k,
        other => panic!("unexpected action {other:?}"),
    };
    assert_eq!(inserted.title, "New");
    assert_eq!(inserted.description, "");
    assert_eq!(inserted.id.len(), 36);
    let (stage, action) = advance(&mut cache, stage, Event::Written(Ok(1)));
    assert!(matches!(stage, Stage::Finished));
    match action {
        Action::Respond(Reply::Kanban(ApiStatus::Created, k)) => assert_eq!(k.id, inserted.id),
        other => panic!("unexpected action {other:?}"),
    }
    assert_eq!(cache.cached_kanban(&inserted.id).unwrap().title, "New");
}

#[test]
fn update_board_loads_writes_and_answers() {
    let mut cache = AppCache::new();
    let (stage, action) = begin(
        &cache,
        Request::UpdateKanban(
            "b1".to_string(),
            UpdateKanban { title: Some("Renamed".to_string()), description: None },
        ),
    );
    assert!(matches!(action, Action::LoadKanban(ref id) if id == "b1"));
    let (stage, action) = advance(&mut cache, stage, Event::Kanban(Ok(board("b1"))));
    match &action {
        Action::UpdateKanban(k) => {
            assert_eq!((k.id.as_str(), k.title.as_str(), k.description.as_str()), ("b1", "Renamed", "about"))
        }
        other => panic!("unexpected action {other:?}"),
    }
    let (_, action) = advance(&mut cache, stage, Event::Written(Ok(1)));
    assert!(matches!(action, Action::Respond(Reply::Kanban(ApiStatus::Success, ref k)) if k.title == "Renamed"));
    assert_eq!(cache.cached_kanban("b1").unwrap().title, "Renamed");

    let (stage, _) = begin(
        &cache,
        Request::UpdateKanban("q".to_string(), UpdateKanban { title: None, description: None }),
    );
    let (_, action) = advance(&mut cache, stage, Event::Kanban(Err(FetchError::Other)));
    assert!(matches!(action, Action::Respond(Reply::Failed(ApiStatus::InternalError))));
}

#[test]
fn delete_board_runs_four_statements() {
    let mut cache = AppCache::new();
    cache.apply(&kanban::handlers::kanban_read("b1".to_string(), Ok(board("b1"))).1);
    let (stage, action) = begin(&cache, Request::DeleteKanban("b1".to_string()));
    assert!(matches!(action, Action::LoadKanban(_)));
    let (stage, action) = advance(&mut cache, stage, Event::Kanban(Ok(board("b1"))));
    assert!(matches!(action, Action::LoadColumns(ref id) if id == "b1"));
    let (stage, action) = advance(&mut cache, stage, Event::Columns(Ok(vec![column("c1", "b1")])));
    assert!(matches!(action, Action::LoadCardsOfKanban(ref id) if id == "b1"));
    let (stage, action) = advance(&mut cache, stage, Event::Cards(Ok(vec![card("k1", "c1")])));
    assert!(matches!(action, Action::DeleteKanban(ref id) if id == "b1"));
    let (stage, action) = advance(&mut cache, stage, Event::Written(Ok(1)));
    assert!(matches!(stage, Stage::Finished));
    assert!(matches!(action, Action::Respond(Reply::Done(ApiStatus::NoContent))));
    assert!(cache.cached_kanban("b1").is_none());

    let (stage, _) = begin(&cache, Request::DeleteKanban("b2".to_string()));
    let (stage, _) = advance(&mut cache, stage, Event::Kanban(Ok(board("b2"))));
    let (_, action) = advance(&mut cache, stage, Event::Columns(Err(DbError)));
    assert!(matches!(action, Action::Respond(Reply::Failed(ApiStatus::InternalError))));
}

#[test]
fn delete_of_no_row_is_not_found() {
    let (_, action, ops) = decide(
        Stage::DeletingCard(card("k1", "c1")),
        Event::Written(Ok(0)),
        None,
    );
    assert!(matches!(action, Action::Respond(Reply::Failed(ApiStatus::NotFound))));
    assert!(ops.is_empty());
}

#[test]
fn create_column_positions_after_the_last_or_gives_up() {
    let mut cache = AppCache::new();
    let (stage, action) = begin(
        &cache,
        Request::CreateColumn("b1".to_string(), CreateColumn { title: "Todo".to_string() }),
    );
    assert!(matches!(action, Action::LoadMaxColumnPosition(ref id) if id == "b1"));
    let (stage, action) = advance(&mut cache, stage, Event::Position(Ok(2)));
    match &action {
        Action::InsertColumn(c) => {
            assert_eq!(c.position, 3);
            assert_eq!(c.kanban_id, "b1");
        }
        other => panic!("unexpected action {other:?}"),
    }
    let (_, action) = advance(&mut cache, stage, Event::Written(Err(DbError)));
    assert!(matches!(action, Action::Respond(Reply::Failed(ApiStatus::InternalError))));

    let (stage, _) = begin(
        &cache,
        Request::CreateColumn("b1".to_string(), CreateColumn { title: "X".to_string() }),
    );
    let (stage, action) = advance(&mut cache, stage, Event::Position(Ok(i64::MAX)));
    assert!(matches!(stage, Stage::Finished));
    assert!(matches!(action, Action::Abort(Abort::PositionOverflow)));
}

#[test]
fn lists_are_cached_after_the_first_read() {
    let mut cache = AppCache::new();
    let (stage, action) = begin(&cache, Request::ListCards("c1".to_string()));
    assert!(matches!(action, Action::LoadCards(ref id) if id == "c1"));
    let (_, action) = advance(&mut cache, stage, Event::Cards(Ok(vec![card("k1", "c1"), card("k2", "c1")])));
    assert!(matches!(action, Action::Respond(Reply::Cards(ref v)) if v.len() == 2));
    let (stage, action) = begin(&cache, Request::ListCards("c1".to_string()));
    assert!(matches!(stage, Stage::Finished));
    assert!(matches!(action, Action::Respond(Reply::Cards(ref v)) if v.len() == 2));
}

#[test]
fn events_must_match_the_stage() {
    assert!(accepts(&Stage::ListingKanbans, &Event::Kanbans(Ok(vec![]))));
    assert!(!accepts(&Stage::ListingKanbans, &Event::Written(Ok(1))));
    assert!(!accepts(&Stage::Finished, &Event::Written(Ok(1))));
    assert!(accepts(&Stage::PositioningCard("c".to_string(), kanban::model::CreateCard { title: "t".to_string(), description: None }), &Event::Position(Ok(0))));
}

#[test]
fn a_cache_hit_is_answered_with_exactly_what_the_cache_held() {
    let hit = CacheHit::Card(card("k9", "c9"));
    let (stage, action) = start(Request::GetCard("k9".to_string()), Some(hit), None);
    assert!(matches!(stage, Stage::Finished));
    match action {
        Action::Respond(Reply::Card(ApiStatus::Success, c)) => {
            assert_eq!(c.id, "k9");
            assert_eq!(c.column_id, "c9");
            assert_eq!(c.created_at, "300");
        }
        other => panic!("unexpected action {other:?}"),
    }
    let action = cached_reply(CacheHit::KanbanList(vec![board("b1"), board("b2")]));
    match action {
        Action::Respond(Reply::Kanbans(v)) => {
            assert_eq!(v.len(), 2);
            assert_eq!(v[1].id, "b2");
        }
        other => panic!("unexpected action {other:?}"),
    }
}

#[test]
fn a_hit_of_another_kind_is_ignored() {
    let hit = CacheHit::Column(column("c1", "b1"));
    let (stage, action) = start(Request::GetCard("k1".to_string()), Some(hit), None);
    assert!(matches!(stage, Stage::ReadingCard(ref id) if id == "k1"));
    assert!(matches!(action, Action::LoadCard(ref id) if id == "k1"));
}

#[test]
fn a_new_board_takes_the_fresh_identifier_and_clock_reading() {
    let fresh = Fresh { id: "0d4c2c83-8f2a-4c4e-9b1e-2f6a7d3c1b00".to_string(), clock: Some(1700000000) };
    let body = CreateKanban { title: "Plan".to_string(), description: None };
    let (stage, action) = start(Request::CreateKanban(body), None, Some(fresh));
    assert!(matches!(stage, Stage::CreatingKanban(_)));
    match action {
        Action::InsertKanban(k) => {
            assert_eq!(k.id, "0d4c2c83-8f2a-4c4e-9b1e-2f6a7d3c1b00");
            assert_eq!(k.title, "Plan");
            assert_eq!(k.description, "");
            assert_eq!(k.created_at, "1700000000");
        }
        other => panic!("unexpected action {other:?}"),
    }
    let fresh = Fresh { id: "x".to_string(), clock: None };
    let body = CreateKanban { title: "Plan".to_string(), description: None };
    let (stage, action) = start(Request::CreateKanban(body), None, Some(fresh));
    assert!(matches!(stage, Stage::Finished));
    assert!(matches!(action, Action::Abort(Abort::ClockBeforeEpoch)));
}

#[test]
fn a_new_card_goes_after_the_largest_position_with_the_clock_reading() {
    let body = CreateCard { title: "Write".to_string(), description: Some("tests".to_string()) };
    let fresh = Fresh { id: "id-1".to_string(), clock: Some(42) };
    let (stage, action, ops) = decide(
        Stage::PositioningCard("c1".to_string(), body),
        Event::Position(Ok(-1)),
        Some(fresh),
    );
    assert!(ops.is_empty());
    assert!(matches!(stage, Stage::CreatingCard(_)));
    match action {
        Action::InsertCard(c) => {
            assert_eq!(c.id, "id-1");
            assert_eq!(c.column_id, "c1");
            assert_eq!(c.position, 0);
            assert_eq!(c.description, "tests");
            assert_eq!(c.created_at, "42");
        }
        other => panic!("unexpected action {other:?}"),
    }
    let body = CreateCard { title: "Write".to_string(), description: None };
    let fresh = Fresh { id: "id-2".to_string(), clock: None };
    let (stage, action, _) = decide(
        Stage::PositioningCard("c1".to_string(), body),
        Event::Position(Ok(5)),
        Some(fresh),
    );
    assert!(matches!(stage, Stage::Finished));
    assert!(matches!(action, Action::Abort(Abort::ClockBeforeEpoch)));
}
