use kanban::cache::CacheOp;
use kanban::exchange::{advance, begin, decide, Action, Event, Reply, Request, Stage};
use kanban::handlers::kanbans_listed;
use kanban::status::DbError;
use kanban::model::{Card, Column, CreateColumn, Fresh, Kanban, UpdateCard};
use kanban::status::ApiStatus;
use kanban::text::u64_to_decimal;

fn card(id: &str, column_id: &str, title: &str) -> Card {
    Card {
        id: id.to_string(),
        column_id: column_id.to_string(),
        title: title.to_string(),
        description: "old".to_string(),
        position: 4,
        created_at: "300".to_string(),
    }
}

fn updated_by(cur: Card, body: UpdateCard) -> Card {
    let (stage, action, _) = decide(
        Stage::LoadingCardForUpdate(cur.id.clone(), body),
        Event::Card(Ok(cur)),
        None,
    );
    assert!(matches!(stage, Stage::UpdatingCard(_)));
    match action {
        Action::UpdateCard(u) => u,
        other => panic!("unexpected action {other:?}"),
    }
}

#[test]
fn repeating_an_update_gives_the_same_card() {
    let body = || UpdateCard { title: Some("New".to_string()), description: None };
    let first = updated_by(card("k1", "c1", "Old"), body());
    let second = updated_by(first.clone(), body());
    assert_eq!(first.title, "New");
    assert_eq!(first.description, "old");
    assert_eq!(second.id, first.id);
    assert_eq!(second.title, first.title);
    assert_eq!(second.description, first.description);
    assert_eq!(second.position, first.position);
    assert_eq!(second.created_at, first.created_at);
}

#[test]
fn later_clock_readings_give_texts_that_read_back_in_order() {
    let a = u64_to_decimal(9);
    let b = u64_to_decimal(10);
    let c = u64_to_decimal(1_700_000_000);
    assert_eq!(a, "9");
    assert_eq!(b, "10");
    assert!(a.len() <= b.len() && b.len() <= c.len());
    assert!(a.parse::<u64>().unwrap() <= b.parse::<u64>().unwrap());
    assert_eq!(c.parse::<u64>().unwrap(), 1_700_000_000);
}

#[test]
fn a_created_board_drops_the_cached_list_of_boards() {
    let k = Kanban {
        id: "b7".to_string(),
        title: "T".to_string(),
        description: String::new(),
        created_at: "5".to_string(),
    };
    let (_, action, ops) = decide(Stage::CreatingKanban(k), Event::Written(Ok(1)), None);
    assert!(matches!(action, Action::Respond(Reply::Kanban(ApiStatus::Created, ref v)) if v.id == "b7"));
    assert!(matches!(ops[0], CacheOp::DropKanbanList));
    assert!(matches!(ops[1], CacheOp::StoreKanban(ref key, _) if key == "b7"));
}

#[test]
fn a_deleted_board_is_dropped_from_the_cache() {
    let (_, action, ops) = decide(
        Stage::DeletingKanban("b1".to_string(), vec![], vec![]),
        Event::Written(Ok(1)),
        None,
    );
    assert!(matches!(action, Action::Respond(Reply::Done(ApiStatus::NoContent))));
    assert!(ops.iter().any(|op| matches!(op, CacheOp::DropKanban(ref key) if key == "b1")));
}

#[test]
fn an_updated_column_drops_its_board_list_and_caches_the_new_row() {
    let u = Column {
        id: "c2".to_string(),
        kanban_id: "b1".to_string(),
        title: "Doing".to_string(),
        position: 1,
        created_at: "8".to_string(),
    };
    let (_, action, ops) = decide(Stage::UpdatingColumn(u), Event::Written(Ok(1)), None);
    assert!(matches!(action, Action::Respond(Reply::Column(ApiStatus::Success, ref v)) if v.title == "Doing"));
    assert!(matches!(ops[0], CacheOp::DropColumnList(ref key) if key == "b1"));
    assert!(matches!(ops[2], CacheOp::StoreColumn(ref key, ref v) if key == "c2" && v.title == "Doing"));
}

#[test]
fn a_new_column_goes_after_the_largest_position() {
    let fresh = Fresh { id: "n1".to_string(), clock: Some(7) };
    let (_, action, _) = decide(
        Stage::PositioningColumn("b1".to_string(), CreateColumn { title: "Done".to_string() }),
        Event::Position(Ok(6)),
        Some(fresh),
    );
    match action {
        Action::InsertColumn(c) => {
            assert_eq!(c.position, 7);
            assert_eq!(c.id, "n1");
            assert_eq!(c.created_at, "7");
        }
        other => panic!("unexpected action {other:?}"),
    }
}

#[test]
fn a_clock_reading_becomes_its_decimal_timestamp() {
    assert_eq!(kanban::clock::timestamp(Some(1_700_000_123)), Some("1700000123".to_string()));
    assert_eq!(kanban::clock::timestamp(Some(0)), Some("0".to_string()));
    assert_eq!(kanban::clock::timestamp(None), None);
}

#[test]
fn a_new_server_cache_holds_nothing() {
    let cache = kanban::cache::AppCache::new();
    assert!(cache.cached_kanban_list().is_none());
    assert!(cache.cached_kanban("b1").is_none());
    assert!(cache.cached_column_list("b1").is_none());
    assert!(cache.cached_column("c1").is_none());
    assert!(cache.cached_card_list("c1").is_none());
    assert!(cache.cached_card("k1").is_none());
}

#[test]
fn a_failed_create_leaves_the_caches_as_they_were() {
    let mut cache = kanban::cache::AppCache::new();
    let listed = Kanban {
        id: "b1".to_string(),
        title: "T".to_string(),
        description: String::new(),
        created_at: "1".to_string(),
    };
    cache.apply(&kanbans_listed(Ok(vec![listed])).1);
    let (stage, _) = begin(
        &cache,
        Request::CreateKanban(kanban::model::CreateKanban { title: "N".to_string(), description: None }),
    );
    let (_, action) = advance(&mut cache, stage, Event::Written(Err(DbError)));
    assert!(matches!(action, Action::Respond(Reply::Failed(ApiStatus::InternalError))));
    assert_eq!(cache.cached_kanban_list().unwrap()[0].id, "b1");
}
