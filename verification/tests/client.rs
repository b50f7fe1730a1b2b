use kanban::cli::{
    classify_status, failure_message, plan_request, route_pattern, trim_end_slashes, CardAction,
    ColumnAction, Commands, KanbanAction, Method, RequestBody, ResponseKind, Route,
};

const BASE: &str = "http://localhost:3001/";

#[test]
fn trailing_slashes_are_trimmed() {
    assert_eq!(trim_end_slashes("http://h:1///"), "http://h:1");
    assert_eq!(trim_end_slashes("http://h:1"), "http://h:1");
    assert_eq!(trim_end_slashes("///"), "");
    assert_eq!(trim_end_slashes(""), "");
}

#[test]
fn server_route_patterns() {
    assert_eq!(route_pattern(Route::Kanbans), "/api/kanbans");
    assert_eq!(route_pattern(Route::Kanban), "/api/kanbans/:id");
    assert_eq!(route_pattern(Route::KanbanColumns), "/api/kanbans/:kanban_id/columns");
    assert_eq!(route_pattern(Route::Column), "/api/columns/:id");
    assert_eq!(route_pattern(Route::ColumnCards), "/api/columns/:column_id/cards");
    assert_eq!(route_pattern(Route::Card), "/api/cards/:id");
}

#[test]
fn board_commands() {
    let p = plan_request(BASE, Commands::Kanban { action: KanbanAction::List });
    assert_eq!((p.method, p.url.as_str(), p.prints_body), (Method::Get, "http://localhost:3001/api/kanbans", true));
    assert!(p.body.is_none());
    let p = plan_request(BASE, Commands::Kanban { action: KanbanAction::Get { id: "b1".to_string() } });
    assert_eq!((p.method, p.url.as_str()), (Method::Get, "http://localhost:3001/api/kanbans/b1"));
    let p = plan_request(
        BASE,
        Commands::Kanban {
            action: KanbanAction::Create { title: "T".to_string(), description: String::new() },
        },
    );
    assert_eq!((p.method, p.url.as_str()), (Method::Post, "http://localhost:3001/api/kanbans"));
    match p.body {
        Some(RequestBody::CreateKanban { title, description }) => {
            assert_eq!((title.as_str(), description.as_str()), ("T", ""))
        }
        other => panic!("unexpected body {other:?}"),
    }
    let p = plan_request(
        BASE,
        Commands::Kanban {
            action: KanbanAction::Update {
                id: "b1".to_string(),
                title: None,
                description: Some("d".to_string()),
            },
        },
    );
    assert_eq!((p.method, p.url.as_str()), (Method::Put, "http://localhost:3001/api/kanbans/b1"));
    match p.body {
        Some(RequestBody::UpdateKanban { title, description }) => {
            assert!(title.is_none());
            assert_eq!(description.as_deref(), Some("d"));
        }
        other => panic!("unexpected body {other:?}"),
    }
    let p = plan_request(BASE, Commands::Kanban { action: KanbanAction::Delete { id: "b1".to_string() } });
    assert_eq!((p.method, p.url.as_str(), p.prints_body), (Method::Delete, "http://localhost:3001/api/kanbans/b1", false));
}

#[test]
fn column_commands() {
    let p = plan_request(BASE, Commands::Column { action: ColumnAction::List { kanban_id: "b1".to_string() } });
    assert_eq!((p.method, p.url.as_str()), (Method::Get, "http://localhost:3001/api/kanbans/b1/columns"));
    let p = plan_request(
        BASE,
        Commands::Column { action: ColumnAction::Create { kanban_id: "b1".to_string(), title: "Todo".to_string() } },
    );
    assert_eq!((p.method, p.url.as_str()), (Method::Post, "http://localhost:3001/api/kanbans/b1/columns"));
    assert!(matches!(p.body, Some(RequestBody::CreateColumn { ref title }) if title == "Todo"));
    let p = plan_request(BASE, Commands::Column { action: ColumnAction::Get { id: "c1".to_string() } });
    assert_eq!((p.method, p.url.as_str()), (Method::Get, "http://localhost:3001/api/columns/c1"));
    let p = plan_request(
        BASE,
        Commands::Column { action: ColumnAction::Update { id: "c1".to_string(), title: Some("X".to_string()) } },
    );
    assert_eq!((p.method, p.url.as_str()), (Method::Put, "http://localhost:3001/api/columns/c1"));
    assert!(matches!(p.body, Some(RequestBody::UpdateColumn { title: Some(ref t) }) if t == "X"));
    let p = plan_request(BASE, Commands::Column { action: ColumnAction::Delete { id: "c1".to_string() } });
    assert_eq!((p.method, p.url.as_str(), p.prints_body), (Method::Delete, "http://localhost:3001/api/columns/c1", false));
}

#[test]
fn card_commands() {
    let p = plan_request("http://h", Commands::Card { action: CardAction::List { column_id: "c1".to_string() } });
    assert_eq!((p.method, p.url.as_str()), (Method::Get, "http://h/api/columns/c1/cards"));
    let p = plan_request(
        "http://h",
        Commands::Card {
            action: CardAction::Create {
                column_id: "c1".to_string(),
                title: "T".to_string(),
                description: "D".to_string(),
            },
        },
    );
    assert_eq!((p.method, p.url.as_str()), (Method::Post, "http://h/api/columns/c1/cards"));
    assert!(matches!(p.body, Some(RequestBody::CreateCard { ref title, ref description }) if title == "T" && description == "D"));
    let p = plan_request("http://h", Commands::Card { action: CardAction::Get { id: "k1".to_string() } });
    assert_eq!((p.method, p.url.as_str()), (Method::Get, "http://h/api/cards/k1"));
    let p = plan_request(
        "http://h",
        Commands::Card { action: CardAction::Update { id: "k1".to_string(), title: None, description: None } },
    );
    assert_eq!((p.method, p.url.as_str()), (Method::Put, "http://h/api/cards/k1"));
    assert!(matches!(p.body, Some(RequestBody::UpdateCard { title: None, description: None })));
    let p = plan_request("http://h", Commands::Card { action: CardAction::Delete { id: "k1".to_string() } });
    assert_eq!((p.method, p.url.as_str(), p.prints_body), (Method::Delete, "http://h/api/cards/k1", false));
}

#[test]
fn responses_are_judged_by_status() {
    assert_eq!(classify_status(200), ResponseKind::JsonBody);
    assert_eq!(classify_status(201), ResponseKind::JsonBody);
    assert_eq!(classify_status(204), ResponseKind::NoContent);
    assert_eq!(classify_status(299), ResponseKind::JsonBody);
    assert_eq!(classify_status(199), ResponseKind::Failure);
    assert_eq!(classify_status(300), ResponseKind::Failure);
    assert_eq!(classify_status(404), ResponseKind::Failure);
    assert_eq!(classify_status(500), ResponseKind::Failure);
}

#[test]
fn failure_messages() {
    assert_eq!(
        failure_message(404, "{\"message\":\"gone\"}".to_string(), Some("gone".to_string())),
        "404 Not Found: gone"
    );
    assert_eq!(
        failure_message(500, "boom".to_string(), None),
        "500 Internal Server Error: boom"
    );
    assert_eq!(failure_message(599, String::new(), None), "599 <unknown status code>: ");
}
