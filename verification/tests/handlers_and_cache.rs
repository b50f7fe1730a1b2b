use kanban::cache::{capacity, AppCache, CacheOp, CacheSlot, CACHE_TTL_SECS, KANBAN_LIST_KEY};
use kanban::handlers::{
    card_created, card_deleted, card_read, card_to_update, card_updated, cards_listed,
    column_created, column_deleted, column_read, column_to_update, column_updated, columns_listed,
    kanban_created, kanban_deleted, kanban_read, kanban_to_update, kanban_updated, kanbans_listed,
};
use kanban::model::{Card, Column, Kanban, UpdateCard, UpdateColumn, UpdateKanban};
use kanban::status::{ApiStatus, DbError, FetchError};

fn board(id: &str) -> Kanban {
    Kanban {
        id: id.to_string(),
        title: format!("Board {id}"),
        description: String::new(),
        created_at: "100".to_string(),
    }
}

fn column(id: &str, kanban_id: &str, position: i64) -> Column {
    Column {
        id: id.to_string(),
        kanban_id: kanban_id.to_string(),
        title: format!("Column {id}"),
        position,
        created_at: "200".to_string(),
    }
}

fn card(id: &str, column_id: &str, position: i64) -> Card {
    Card {
        id: id.to_string(),
        column_id: column_id.to_string(),
        title: format!("Card {id}"),
        description: "d".to_string(),
        position,
        created_at: "300".to_string(),
    }
}

fn op_keys(ops: &[CacheOp]) -> Vec<String> {
    ops.iter()
        .map(|op| match op {
            CacheOp::DropKanbanList => "drop kanbans".to_string(),
            CacheOp::DropKanban(k) => format!("drop kanban {k}"),
            CacheOp::DropColumnList(k) => format!("drop columns of {k}"),
            CacheOp::DropColumn(k) => format!("drop column {k}"),
            CacheOp::DropCardList(k) => format!("drop cards of {k}"),
            CacheOp::DropCard(k) => format!("drop card {k}"),
            CacheOp::StoreKanbanList(v) => format!("store kanbans {}", v.len()),
            CacheOp::StoreKanban(k, v) => format!("store kanban {k} {}", v.title),
            CacheOp::StoreColumnList(k, v) => format!("store columns of {k} {}", v.len()),
            CacheOp::StoreColumn(k, v) => format!("store column {k} {}", v.title),
            CacheOp::StoreCardList(k, v) => format!("store cards of {k} {}", v.len()),
            CacheOp::StoreCard(k, v) => format!("store card {k} {}", v.title),
        })
        .collect()
}

#[test]
fn cache_configuration() {
    assert_eq!(CACHE_TTL_SECS, 30);
    assert_eq!(KANBAN_LIST_KEY, "kanbans:list");
    assert_eq!(capacity(CacheSlot::KanbanList), 64);
    assert_eq!(capacity(CacheSlot::Kanbans), 1_024);
    assert_eq!(capacity(CacheSlot::ColumnLists), 256);
    assert_eq!(capacity(CacheSlot::Columns), 2_048);
    assert_eq!(capacity(CacheSlot::CardLists), 1_024);
    assert_eq!(capacity(CacheSlot::Cards), 8_192);
}

#[test]
fn listing_boards_caches_the_list() {
    let (reply, ops) = kanbans_listed(Ok(vec![board("a"), board("b")]));
    let rows = reply.unwrap();
    assert_eq!(rows.len(), 2);
    assert_eq!(op_keys(&ops), vec!["store kanbans 2"]);
    let mut cache = AppCache::new();
    assert!(cache.cached_kanban_list().is_none());
    cache.apply(&ops);
    let cached = cache.cached_kanban_list().unwrap();
    assert_eq!(cached.len(), 2);
    assert_eq!(cached[1].id, "b");

    let (reply, ops) = kanbans_listed(Err(DbError));
    assert_eq!(reply.unwrap_err(), ApiStatus::InternalError);
    assert!(ops.is_empty());
}

#[test]
fn reading_a_board_caches_it_and_maps_failures() {
    let (reply, ops) = kanban_read("a".to_string(), Ok(board("a")));
    assert_eq!(reply.unwrap().id, "a");
    assert_eq!(op_keys(&ops), vec!["store kanban a Board a"]);
    let mut cache = AppCache::new();
    cache.apply(&ops);
    assert_eq!(cache.cached_kanban("a").unwrap().title, "Board a");
    assert!(cache.cached_kanban("b").is_none());

    let (reply, ops) = kanban_read("z".to_string(), Err(FetchError::RowNotFound));
    assert_eq!(reply.unwrap_err(), ApiStatus::NotFound);
    assert!(ops.is_empty());
    let (reply, _) = kanban_read("z".to_string(), Err(FetchError::Other));
    assert_eq!(reply.unwrap_err(), ApiStatus::InternalError);
}

#[test]
fn creating_a_board_drops_the_list_and_caches_the_board() {
    let mut cache = AppCache::new();
    cache.apply(&kanbans_listed(Ok(vec![board("a")])).1);
    assert!(cache.cached_kanban_list().is_some());
    let (reply, ops) = kanban_created(board("n"), Ok(()));
    let (status, row) = reply.unwrap();
    assert_eq!(status, ApiStatus::Created);
    assert_eq!(row.id, "n");
    assert_eq!(op_keys(&ops), vec!["drop kanbans", "store kanban n Board n"]);
    cache.apply(&ops);
    assert!(cache.cached_kanban_list().is_none());
    assert_eq!(cache.cached_kanban("n").unwrap().id, "n");

    let (reply, ops) = kanban_created(board("m"), Err(DbError));
    assert_eq!(reply.unwrap_err(), ApiStatus::InternalError);
    assert!(ops.is_empty());
}

#[test]
fn updating_a_board_refreshes_its_cache_entry() {
    let mut cache = AppCache::new();
    cache.apply(&kanban_read("a".to_string(), Ok(board("a"))).1);
    cache.apply(&kanbans_listed(Ok(vec![board("a")])).1);
    let target = kanban_to_update(
        "a".to_string(),
        Ok(board("a")),
        UpdateKanban { title: Some("Renamed".to_string()), description: None },
    )
    .unwrap();
    assert_eq!(target.title, "Renamed");
    let (reply, ops) = kanban_updated("a".to_string(), target, Ok(()));
    assert_eq!(reply.unwrap().title, "Renamed");
    assert_eq!(op_keys(&ops), vec!["drop kanbans", "store kanban a Renamed"]);
    cache.apply(&ops);
    assert!(cache.cached_kanban_list().is_none());
    assert_eq!(cache.cached_kanban("a").unwrap().title, "Renamed");

    let missing = kanban_to_update(
        "x".to_string(),
        Err(FetchError::RowNotFound),
        UpdateKanban { title: None, description: None },
    );
    assert_eq!(missing.unwrap_err(), ApiStatus::NotFound);
    let (reply, ops) = kanban_updated("a".to_string(), board("a"), Err(DbError));
    assert_eq!(reply.unwrap_err(), ApiStatus::InternalError);
    assert!(ops.is_empty());
}

#[test]
fn deleting_a_board_drops_everything_under_it() {
    let mut cache = AppCache::new();
    let columns = vec![column("c1", "a", 0), column("c2", "a", 1)];
    let cards = vec![card("k1", "c1", 0), card("k2", "c2", 0)];
    cache.apply(&kanbans_listed(Ok(vec![board("a"), board("b")])).1);
    cache.apply(&kanban_read("a".to_string(), Ok(board("a"))).1);
    cache.apply(&kanban_read("b".to_string(), Ok(board("b"))).1);
    cache.apply(&columns_listed("a".to_string(), Ok(columns.clone())).1);
    cache.apply(&column_read("c1".to_string(), Ok(column("c1", "a", 0))).1);
    cache.apply(&cards_listed("c2".to_string(), Ok(vec![card("k2", "c2", 0)])).1);
    cache.apply(&card_read("k1".to_string(), Ok(card("k1", "c1", 0))).1);

    let (reply, ops) = kanban_deleted("a".to_string(), columns, cards, Ok(1));
    assert_eq!(reply, Ok(ApiStatus::NoContent));
    assert_eq!(
        op_keys(&ops),
        vec![
            "drop kanbans",
            "drop kanban a",
            "drop columns of a",
            "drop column c1",
            "drop cards of c1",
            "drop column c2",
            "drop cards of c2",
            "drop card k1",
            "drop card k2",
        ]
    );
    cache.apply(&ops);
    assert!(cache.cached_kanban_list().is_none());
    assert!(cache.cached_kanban("a").is_none());
    assert!(cache.cached_kanban("b").is_some());
    assert!(cache.cached_column_list("a").is_none());
    assert!(cache.cached_column("c1").is_none());
    assert!(cache.cached_card_list("c2").is_none());
    assert!(cache.cached_card("k1").is_none());

    let (reply, ops) = kanban_deleted("a".to_string(), vec![], vec![], Ok(0));
    assert_eq!(reply, Err(ApiStatus::NotFound));
    assert!(ops.is_empty());
    let (reply, ops) = kanban_deleted("a".to_string(), vec![], vec![], Err(DbError));
    assert_eq!(reply, Err(ApiStatus::InternalError));
    assert!(ops.is_empty());
}

#[test]
fn column_handlers() {
    let mut cache = AppCache::new();
    let (reply, ops) = columns_listed("a".to_string(), Ok(vec![column("c1", "a", 0)]));
    assert_eq!(reply.unwrap().len(), 1);
    assert_eq!(op_keys(&ops), vec!["store columns of a 1"]);
    cache.apply(&ops);
    assert_eq!(cache.cached_column_list("a").unwrap()[0].id, "c1");
    assert_eq!(columns_listed("a".to_string(), Err(DbError)).0.unwrap_err(), ApiStatus::InternalError);

    let (reply, ops) = column_created(column("c2", "a", 1), Ok(()));
    assert_eq!(reply.unwrap().0, ApiStatus::Created);
    assert_eq!(op_keys(&ops), vec!["drop columns of a", "store column c2 Column c2"]);
    cache.apply(&ops);
    assert!(cache.cached_column_list("a").is_none());
    assert_eq!(cache.cached_column("c2").unwrap().position, 1);
    assert!(column_created(column("c3", "a", 2), Err(DbError)).1.is_empty());

    let (reply, _) = column_read("zz".to_string(), Err(FetchError::RowNotFound));
    assert_eq!(reply.unwrap_err(), ApiStatus::NotFound);

    let target = column_to_update(
        "c2".to_string(),
        Ok(column("c2", "a", 1)),
        UpdateColumn { title: Some("Testing".to_string()) },
    )
    .unwrap();
    let (reply, ops) = column_updated("c2".to_string(), target, Ok(()));
    assert_eq!(reply.unwrap().title, "Testing");
    assert_eq!(
        op_keys(&ops),
        vec!["drop columns of a", "drop column c2", "store column c2 Testing"]
    );
    cache.apply(&ops);
    assert_eq!(cache.cached_column("c2").unwrap().title, "Testing");
    assert_eq!(
        column_to_update("q".to_string(), Err(FetchError::Other), UpdateColumn { title: None })
            .unwrap_err(),
        ApiStatus::InternalError
    );

    cache.apply(&cards_listed("c2".to_string(), Ok(vec![card("k1", "c2", 0)])).1);
    let (reply, ops) = column_deleted(
        "c2".to_string(),
        column("c2", "a", 1),
        vec![card("k1", "c2", 0)],
        Ok(1),
    );
    assert_eq!(reply, Ok(ApiStatus::NoContent));
    assert_eq!(
        op_keys(&ops),
        vec!["drop columns of a", "drop column c2", "drop cards of c2", "drop card k1"]
    );
    cache.apply(&ops);
    assert!(cache.cached_column("c2").is_none());
    assert!(cache.cached_card_list("c2").is_none());
    let (reply, ops) = column_deleted("c2".to_string(), column("c2", "a", 1), vec![], Ok(0));
    assert_eq!(reply, Err(ApiStatus::NotFound));
    assert!(ops.is_empty());
}

#[test]
fn card_handlers() {
    let mut cache = AppCache::new();
    let (reply, ops) = cards_listed("c1".to_string(), Ok(vec![card("k1", "c1", 0)]));
    assert_eq!(reply.unwrap().len(), 1);
    cache.apply(&ops);
    assert_eq!(cache.cached_card_list("c1").unwrap().len(), 1);

    let (reply, ops) = card_created(card("k2", "c1", 1), Ok(()));
    assert_eq!(reply.unwrap().1.id, "k2");
    assert_eq!(op_keys(&ops), vec!["drop cards of c1", "store card k2 Card k2"]);
    cache.apply(&ops);
    assert!(cache.cached_card_list("c1").is_none());
    assert_eq!(card_created(card("k3", "c1", 2), Err(DbError)).0.unwrap_err(), ApiStatus::InternalError);

    let (reply, ops) = card_read("k2".to_string(), Ok(card("k2", "c1", 1)));
    assert_eq!(reply.unwrap().position, 1);
    assert_eq!(op_keys(&ops), vec!["store card k2 Card k2"]);
    let (reply, _) = card_read("k9".to_string(), Err(FetchError::RowNotFound));
    assert_eq!(reply.unwrap_err(), ApiStatus::NotFound);

    let target = card_to_update(
        "k2".to_string(),
        Ok(card("k2", "c1", 1)),
        UpdateCard { title: Some("Ship".to_string()), description: None },
    )
    .unwrap();
    assert_eq!(target.description, "d");
    let (reply, ops) = card_updated("k2".to_string(), target, Ok(()));
    assert_eq!(reply.unwrap().title, "Ship");
    assert_eq!(op_keys(&ops), vec!["drop cards of c1", "drop card k2", "store card k2 Ship"]);
    cache.apply(&ops);
    assert_eq!(cache.cached_card("k2").unwrap().title, "Ship");
    assert_eq!(card_updated("k2".to_string(), card("k2", "c1", 1), Err(DbError)).0.unwrap_err(), ApiStatus::InternalError);

    let (reply, ops) = card_deleted(card("k2", "c1", 1), Ok(1));
    assert_eq!(reply, Ok(ApiStatus::NoContent));
    assert_eq!(op_keys(&ops), vec!["drop cards of c1", "drop card k2"]);
    cache.apply(&ops);
    assert!(cache.cached_card("k2").is_none());
    assert_eq!(card_deleted(card("k2", "c1", 1), Ok(0)).0, Err(ApiStatus::NotFound));
    assert_eq!(card_deleted(card("k2", "c1", 1), Err(DbError)).0, Err(ApiStatus::InternalError));
}

#[test]
fn tree_invalidation_drops_list_and_entry() {
    let mut cache = AppCache::new();
    cache.apply(&columns_listed("a".to_string(), Ok(vec![column("c1", "a", 0)])).1);
    cache.apply(&column_read("c1".to_string(), Ok(column("c1", "a", 0))).1);
    cache.invalidate_column_tree(&column("c1", "a", 0));
    assert!(cache.cached_column_list("a").is_none());
    assert!(cache.cached_column("c1").is_none());
    cache.apply(&cards_listed("c1".to_string(), Ok(vec![card("k1", "c1", 0)])).1);
    cache.apply(&card_read("k1".to_string(), Ok(card("k1", "c1", 0))).1);
    cache.invalidate_card_tree(&card("k1", "c1", 0));
    assert!(cache.cached_card_list("c1").is_none());
    assert!(cache.cached_card("k1").is_none());
}
