use kanban::clock::now;
use kanban::model::{
    new_card, new_column, new_kanban, prepare_card, prepare_column, prepare_kanban, updated_card,
    updated_column, updated_kanban, Card, Column, CreateCard, CreateColumn, CreateKanban, Kanban,
    UpdateCard, UpdateColumn, UpdateKanban,
};
use kanban::status::{map_fetch_one_error, ApiStatus, FetchError};
use kanban::text::u64_to_decimal;

fn is_v4_uuid(s: &str) -> bool {
    let chars: Vec<char> = s.chars().collect();
    if chars.len() != 36 {
        return false;
    }
    for (i, c) in chars.iter().enumerate() {
        if i == 8 || i == 13 || i == 18 || i == 23 {
            if *c != '-' {
                return false;
            }
        } else if !(c.is_ascii_digit() || ('a'..='f').contains(c)) {
            return false;
        }
    }
    chars[14] == '4' && "89ab".contains(chars[19])
}

#[test]
fn decimal_rendering_matches_to_string() {
    for n in [0u64, 7, 9, 10, 42, 100, 1_700_000_000, u64::MAX] {
        assert_eq!(u64_to_decimal(n), n.to_string());
    }
    assert_eq!(u64_to_decimal(1_700_000_000), "1700000000");
}

#[test]
fn now_is_whole_seconds_in_decimal() {
    let before = std::time::SystemTime::now()
        .duration_since(std::time::UNIX_EPOCH)
        .unwrap()
        .as_secs();
    let stamp = now().expect("clock after the epoch");
    let after = std::time::SystemTime::now()
        .duration_since(std::time::UNIX_EPOCH)
        .unwrap()
        .as_secs();
    assert!(stamp.chars().all(|c| c.is_ascii_digit()));
    let secs: u64 = stamp.parse().unwrap();
    assert!(before <= secs && secs <= after);
}

#[test]
fn status_codes() {
    assert_eq!(ApiStatus::Success.code(), 200);
    assert_eq!(ApiStatus::Created.code(), 201);
    assert_eq!(ApiStatus::NoContent.code(), 204);
    assert_eq!(ApiStatus::NotFound.code(), 404);
    assert_eq!(ApiStatus::InternalError.code(), 500);
}

#[test]
fn missing_row_is_not_found_other_failures_are_internal() {
    assert_eq!(map_fetch_one_error(FetchError::RowNotFound), ApiStatus::NotFound);
    assert_eq!(map_fetch_one_error(FetchError::Other), ApiStatus::InternalError);
}

#[test]
fn new_board_without_description_has_empty_one() {
    let k = new_kanban(
        "b1".to_string(),
        CreateKanban { title: "Plan".to_string(), description: None },
        "100".to_string(),
    );
    assert_eq!(k.id, "b1");
    assert_eq!(k.title, "Plan");
    assert_eq!(k.description, "");
    assert_eq!(k.created_at, "100");
    let k = new_kanban(
        "b2".to_string(),
        CreateKanban { title: "Plan".to_string(), description: Some("all".to_string()) },
        "101".to_string(),
    );
    assert_eq!(k.description, "all");
}

#[test]
fn prepared_rows_get_fresh_ids_and_timestamps() {
    let k = prepare_kanban(CreateKanban { title: "T".to_string(), description: None }).unwrap();
    let k2 = prepare_kanban(CreateKanban { title: "T".to_string(), description: None }).unwrap();
    assert!(is_v4_uuid(&k.id));
    assert!(is_v4_uuid(&k2.id));
    assert_ne!(k.id, k2.id);
    assert!(k.created_at.chars().all(|c| c.is_ascii_digit()));
    assert_eq!(k.title, "T");
    assert_eq!(k.description, "");
}

#[test]
fn new_column_goes_after_the_last() {
    let c = prepare_column("b1".to_string(), CreateColumn { title: "To do".to_string() }, -1)
        .unwrap();
    assert_eq!(c.position, 0);
    assert_eq!(c.kanban_id, "b1");
    assert_eq!(c.title, "To do");
    assert!(is_v4_uuid(&c.id));
    let c = prepare_column("b1".to_string(), CreateColumn { title: "Done".to_string() }, 4)
        .unwrap();
    assert_eq!(c.position, 5);
    let c = new_column(
        "c9".to_string(),
        "b1".to_string(),
        CreateColumn { title: "X".to_string() },
        7,
        "5".to_string(),
    );
    assert_eq!((c.id.as_str(), c.position, c.created_at.as_str()), ("c9", 7, "5"));
}

#[test]
fn new_card_goes_after_the_last() {
    let c = prepare_card(
        "c1".to_string(),
        CreateCard { title: "Write".to_string(), description: Some("docs".to_string()) },
        2,
    )
    .unwrap();
    assert_eq!(c.position, 3);
    assert_eq!(c.column_id, "c1");
    assert_eq!(c.description, "docs");
    let c = new_card(
        "k1".to_string(),
        "c1".to_string(),
        CreateCard { title: "A".to_string(), description: None },
        0,
        "9".to_string(),
    );
    assert_eq!(c.description, "");
    assert_eq!(c.position, 0);
}

fn board() -> Kanban {
    Kanban {
        id: "b1".to_string(),
        title: "Old".to_string(),
        description: "desc".to_string(),
        created_at: "10".to_string(),
    }
}

#[test]
fn board_update_replaces_given_fields_only() {
    let k = updated_kanban(
        "b1".to_string(),
        board(),
        UpdateKanban { title: Some("New".to_string()), description: None },
    );
    assert_eq!(k.title, "New");
    assert_eq!(k.description, "desc");
    assert_eq!(k.created_at, "10");
    let k = updated_kanban(
        "b1".to_string(),
        board(),
        UpdateKanban { title: None, description: Some(String::new()) },
    );
    assert_eq!(k.title, "Old");
    assert_eq!(k.description, "");
}

#[test]
fn column_update_keeps_board_and_position() {
    let current = Column {
        id: "c1".to_string(),
        kanban_id: "b1".to_string(),
        title: "Doing".to_string(),
        position: 3,
        created_at: "11".to_string(),
    };
    let c = updated_column(
        "c1".to_string(),
        current.clone(),
        UpdateColumn { title: Some("Testing".to_string()) },
    );
    assert_eq!(c.title, "Testing");
    assert_eq!(c.kanban_id, "b1");
    assert_eq!(c.position, 3);
    let c = updated_column("c1".to_string(), current, UpdateColumn { title: None });
    assert_eq!(c.title, "Doing");
}

#[test]
fn card_update_keeps_column_and_position() {
    let current = Card {
        id: "k1".to_string(),
        column_id: "c1".to_string(),
        title: "T".to_string(),
        description: "D".to_string(),
        position: 2,
        created_at: "12".to_string(),
    };
    let c = updated_card(
        "k1".to_string(),
        current,
        UpdateCard { title: None, description: Some("E".to_string()) },
    );
    assert_eq!(c.title, "T");
    assert_eq!(c.description, "E");
    assert_eq!(c.column_id, "c1");
    assert_eq!(c.position, 2);
    assert_eq!(c.created_at, "12");
}
