//! The command-line client: which HTTP request each command sends, and how a
//! response is judged.

use vstd::prelude::*;
use crate::text::decimal;

verus! {

/// Commands on boards.
#[derive(Clone, Debug)]
pub enum KanbanAction {
    List,
    Get { id: String },
    Create { title: String, description: String },
    Update { id: String, title: Option<String>, description: Option<String> },
    Delete { id: String },
}

/// Commands on columns.
#[derive(Clone, Debug)]
pub enum ColumnAction {
    List { kanban_id: String },
    Get { id: String },
    Create { kanban_id: String, title: String },
    Update { id: String, title: Option<String> },
    Delete { id: String },
}

/// Commands on cards.
#[derive(Clone, Debug)]
pub enum CardAction {
    List { column_id: String },
    Get { id: String },
    Create { column_id: String, title: String, description: String },
    Update { id: String, title: Option<String>, description: Option<String> },
    Delete { id: String },
}

/// A command of the client.
#[derive(Clone, Debug)]
pub enum Commands {
    Kanban { action: KanbanAction },
    Column { action: ColumnAction },
    Card { action: CardAction },
}

/// HTTP methods the client uses.
#[derive(Clone, Copy, Debug, PartialEq, Eq, Structural)]
pub enum Method {
    Get,
    Post,
    Put,
    Delete,
}

/// The JSON body a request carries; an absent optional field is left out.
#[derive(Clone, Debug)]
pub enum RequestBody {
    CreateKanban { title: String, description: String },
    UpdateKanban { title: Option<String>, description: Option<String> },
    CreateColumn { title: String },
    UpdateColumn { title: Option<String> },
    CreateCard { title: String, description: String },
    UpdateCard { title: Option<String>, description: Option<String> },
}

/// The request a command sends, and whether the client prints the response
/// body (otherwise it prints `Deleted.`).
#[derive(Clone, Debug)]
pub struct RequestPlan {
    pub method: Method,
    pub url: String,
    pub body: Option<RequestBody>,
    pub prints_body: bool,
}

/// The server URL without its trailing slashes.
pub open spec fn trim_slashes(s: Seq<char>) -> Seq<char>
    decreases s.len(),
{
    if s.len() > 0 && s.last() == '/' {
        trim_slashes(s.drop_last())
    } else {
        s
    }
}

/// `s` with every trailing `/` removed, as `str::trim_end_matches('/')`.
pub fn trim_end_slashes(s: &str) -> (r: String)
    ensures
        r@ == trim_slashes(s@),
{
    let n = s.unicode_len();
    let mut k: usize = n;
    assert(s@.subrange(0, n as int) =~= s@);
    while k > 0 && s.get_char(k - 1) == '/'
        invariant
            n == s@.len(),
            k <= n,
            trim_slashes(s@) == trim_slashes(s@.subrange(0, k as int)),
        decreases k,
    {
        assert(s@.subrange(0, k as int).drop_last() =~= s@.subrange(0, k - 1));
        k = k - 1;
    }
    String::from_str(s.substring_char(0, k))
}

/// The server's routes.
#[derive(Clone, Copy, Debug, PartialEq, Eq, Structural)]
pub enum Route {
    /// `/api/kanbans`
    Kanbans,
    /// `/api/kanbans/:id`
    Kanban,
    /// `/api/kanbans/:kanban_id/columns`
    KanbanColumns,
    /// `/api/columns/:id`
    Column,
    /// `/api/columns/:column_id/cards`
    ColumnCards,
    /// `/api/cards/:id`
    Card,
}

/// The text of a route before its path parameter (the whole path where it has
/// none).
pub open spec fn route_prefix(r: Route) -> Seq<char> {
    match r {
        Route::Kanbans => "/api/kanbans"@,
        Route::Kanban => "/api/kanbans/"@,
        Route::KanbanColumns => "/api/kanbans/"@,
        Route::Column => "/api/columns/"@,
        Route::ColumnCards => "/api/columns/"@,
        Route::Card => "/api/cards/"@,
    }
}

/// The name of a route's path parameter, if it has one.
pub open spec fn route_param(r: Route) -> Option<Seq<char>> {
    match r {
        Route::Kanbans => None,
        Route::Kanban => Some("id"@),
        Route::KanbanColumns => Some("kanban_id"@),
        Route::Column => Some("id"@),
        Route::ColumnCards => Some("column_id"@),
        Route::Card => Some("id"@),
    }
}

/// The text of a route after its path parameter.
pub open spec fn route_suffix(r: Route) -> Seq<char> {
    match r {
        Route::KanbanColumns => "/columns"@,
        Route::ColumnCards => "/cards"@,
        _ => Seq::empty(),
    }
}

/// The route as the server registers it: the parameter written `:name`.
pub open spec fn route_pattern_text(r: Route) -> Seq<char> {
    match route_param(r) {
        Some(name) => route_prefix(r) + seq![':'] + name + route_suffix(r),
        None => route_prefix(r),
    }
}

/// The path of a route with `arg` as its parameter.
pub open spec fn route_path(r: Route, arg: Seq<char>) -> Seq<char> {
    match route_param(r) {
        Some(_) => route_prefix(r) + arg + route_suffix(r),
        None => route_prefix(r),
    }
}

/// The pattern under which the server registers a route.
pub fn route_pattern(r: Route) -> (p: &'static str)
    ensures
        p@ == route_pattern_text(r),
{
    proof {
        reveal_strlit("/api/kanbans");
        reveal_strlit("/api/kanbans/:id");
        reveal_strlit("/api/kanbans/:kanban_id/columns");
        reveal_strlit("/api/columns/:id");
        reveal_strlit("/api/columns/:column_id/cards");
        reveal_strlit("/api/cards/:id");
        reveal_strlit("/api/kanbans/");
        reveal_strlit("/api/columns/");
        reveal_strlit("/api/cards/");
        reveal_strlit("/columns");
        reveal_strlit("/cards");
        reveal_strlit("id");
        reveal_strlit("kanban_id");
        reveal_strlit("column_id");
    }
    match r {
        Route::Kanbans => {
            assert("/api/kanbans"@ =~= route_pattern_text(r));
            "/api/kanbans"
        },
        Route::Kanban => {
            assert("/api/kanbans/:id"@ =~= route_pattern_text(r));
            "/api/kanbans/:id"
        },
        Route::KanbanColumns => {
            assert("/api/kanbans/:kanban_id/columns"@ =~= route_pattern_text(r));
            "/api/kanbans/:kanban_id/columns"
        },
        Route::Column => {
            assert("/api/columns/:id"@ =~= route_pattern_text(r));
            "/api/columns/:id"
        },
        Route::ColumnCards => {
            assert("/api/columns/:column_id/cards"@ =~= route_pattern_text(r));
            "/api/columns/:column_id/cards"
        },
        Route::Card => {
            assert("/api/cards/:id"@ =~= route_pattern_text(r));
            "/api/cards/:id"
        },
    }
}

/// The route a command addresses.
pub open spec fn command_route(c: Commands) -> Route {
    match c {
        Commands::Kanban { action } => match action {
            KanbanAction::List => Route::Kanbans,
            KanbanAction::Create { .. } => Route::Kanbans,
            _ => Route::Kanban,
        },
        Commands::Column { action } => match action {
            ColumnAction::List { .. } => Route::KanbanColumns,
            ColumnAction::Create { .. } => Route::KanbanColumns,
            _ => Route::Column,
        },
        Commands::Card { action } => match action {
            CardAction::List { .. } => Route::ColumnCards,
            CardAction::Create { .. } => Route::ColumnCards,
            _ => Route::Card,
        },
    }
}

/// The path parameter a command sends (empty where its route has none).
pub open spec fn command_arg(c: Commands) -> Seq<char> {
    match c {
        Commands::Kanban { action } => match action {
            KanbanAction::List => Seq::empty(),
            KanbanAction::Get { id } => id@,
            KanbanAction::Create { .. } => Seq::empty(),
            KanbanAction::Update { id, .. } => id@,
            KanbanAction::Delete { id } => id@,
        },
        Commands::Column { action } => match action {
            ColumnAction::List { kanban_id } => kanban_id@,
            ColumnAction::Get { id } => id@,
            ColumnAction::Create { kanban_id, .. } => kanban_id@,
            ColumnAction::Update { id, .. } => id@,
            ColumnAction::Delete { id } => id@,
        },
        Commands::Card { action } => match action {
            CardAction::List { column_id } => column_id@,
            CardAction::Get { id } => id@,
            CardAction::Create { column_id, .. } => column_id@,
            CardAction::Update { id, .. } => id@,
            CardAction::Delete { id } => id@,
        },
    }
}

/// The method a command uses: list and get read, create posts, update puts,
/// delete deletes.
pub open spec fn command_method(c: Commands) -> Method {
    match c {
        Commands::Kanban { action } => match action {
            KanbanAction::List => Method::Get,
            KanbanAction::Get { .. } => Method::Get,
            KanbanAction::Create { .. } => Method::Post,
            KanbanAction::Update { .. } => Method::Put,
            KanbanAction::Delete { .. } => Method::Delete,
        },
        Commands::Column { action } => match action {
            ColumnAction::List { .. } => Method::Get,
            ColumnAction::Get { .. } => Method::Get,
            ColumnAction::Create { .. } => Method::Post,
            ColumnAction::Update { .. } => Method::Put,
            ColumnAction::Delete { .. } => Method::Delete,
        },
        Commands::Card { action } => match action {
            CardAction::List { .. } => Method::Get,
            CardAction::Get { .. } => Method::Get,
            CardAction::Create { .. } => Method::Post,
            CardAction::Update { .. } => Method::Put,
            CardAction::Delete { .. } => Method::Delete,
        },
    }
}

/// The body a command sends: the fields of a create or update.
pub open spec fn command_body(c: Commands) -> Option<RequestBody> {
    match c {
        Commands::Kanban { action } => match action {
            KanbanAction::Create { title, description } => Some(
                RequestBody::CreateKanban { title, description },
            ),
            KanbanAction::Update { title, description, .. } => Some(
                RequestBody::UpdateKanban { title, description },
            ),
            _ => None,
        },
        Commands::Column { action } => match action {
            ColumnAction::Create { title, .. } => Some(RequestBody::CreateColumn { title }),
            ColumnAction::Update { title, .. } => Some(RequestBody::UpdateColumn { title }),
            _ => None,
        },
        Commands::Card { action } => match action {
            CardAction::Create { title, description, .. } => Some(
                RequestBody::CreateCard { title, description },
            ),
            CardAction::Update { title, description, .. } => Some(
                RequestBody::UpdateCard { title, description },
            ),
            _ => None,
        },
    }
}

/// Whether the client prints the response body; after a delete it prints
/// `Deleted.` instead.
pub open spec fn command_prints_body(c: Commands) -> bool {
    command_method(c) != Method::Delete
}

fn route_url(base: &String, r: Route, arg: &String) -> (url: String)
    ensures
        url@ == base@ + route_path(r, arg@),
{
    proof {
        reveal_strlit("/api/kanbans");
        reveal_strlit("/api/kanbans/");
        reveal_strlit("/api/columns/");
        reveal_strlit("/api/cards/");
        reveal_strlit("/columns");
        reveal_strlit("/cards");
        reveal_strlit("id");
    }
    let mut url = base.clone();
    match r {
        Route::Kanbans => {
            url.append("/api/kanbans");
        },
        Route::Kanban => {
            url.append("/api/kanbans/");
            url.append(arg.as_str());
        },
        Route::KanbanColumns => {
            url.append("/api/kanbans/");
            url.append(arg.as_str());
            url.append("/columns");
        },
        Route::Column => {
            url.append("/api/columns/");
            url.append(arg.as_str());
        },
        Route::ColumnCards => {
            url.append("/api/columns/");
            url.append(arg.as_str());
            url.append("/cards");
        },
        Route::Card => {
            url.append("/api/cards/");
            url.append(arg.as_str());
        },
    }
    assert(url@ =~= base@ + route_path(r, arg@));
    url
}

/// A create or update command sends its own fields, each under its own name:
/// the title it was given as the body's title and the description as the
/// body's description; a field it was not given is left out.
pub proof fn law_commands_send_their_fields(
    id: String,
    title: String,
    description: String,
    t: Option<String>,
    d: Option<String>,
)
    ensures
        command_body((Commands::Kanban { action: KanbanAction::Create { title, description } }))
            == Some((RequestBody::CreateKanban { title, description })),
        command_body((Commands::Kanban { action: KanbanAction::Update { id, title: t, description: d } }))
            == Some((RequestBody::UpdateKanban { title: t, description: d })),
        command_body((Commands::Column { action: ColumnAction::Create { kanban_id: id, title } }))
            == Some((RequestBody::CreateColumn { title })),
        command_body((Commands::Column { action: ColumnAction::Update { id, title: t } }))
            == Some((RequestBody::UpdateColumn { title: t })),
        command_body((Commands::Card { action: CardAction::Create { column_id: id, title, description } }))
            == Some((RequestBody::CreateCard { title, description })),
        command_body((Commands::Card { action: CardAction::Update { id, title: t, description: d } }))
            == Some((RequestBody::UpdateCard { title: t, description: d })),
{
}

/// The request a command sends to the server at `server`: the command's
/// method, the URL of its route (the server URL without trailing slashes,
/// then the route's path with the command's identifier as its parameter), and
/// the fields it creates or updates as the body.
pub fn plan_request(server: &str, command: Commands) -> (plan: RequestPlan)
    ensures
        plan.method == command_method(command),
        plan.url@ == trim_slashes(server@) + route_path(command_route(command), command_arg(command)),
        plan.body == command_body(command),
        plan.prints_body == command_prints_body(command),
        ({
            match command {
                Commands::Kanban { action: KanbanAction::List } => {
                    &&& plan.method == Method::Get
                    &&& plan.url@ == trim_slashes(server@) + route_path(Route::Kanbans, Seq::<char>::empty())
                    &&& plan.body is None
                    &&& plan.prints_body == true
                },
                Commands::Kanban { action: KanbanAction::Get { id } } => {
                    &&& plan.method == Method::Get
                    &&& plan.url@ == trim_slashes(server@) + route_path(Route::Kanban, id@)
                    &&& plan.body is None
                    &&& plan.prints_body == true
                },
                Commands::Kanban { action: KanbanAction::Create { title, description } } => {
                    &&& plan.method == Method::Post
                    &&& plan.url@ == trim_slashes(server@) + route_path(Route::Kanbans, Seq::<char>::empty())
                    &&& plan.body == Some(RequestBody::CreateKanban { title, description })
                    &&& plan.prints_body == true
                },
                Commands::Kanban { action: KanbanAction::Update { id, title, description } } => {
                    &&& plan.method == Method::Put
                    &&& plan.url@ == trim_slashes(server@) + route_path(Route::Kanban, id@)
                    &&& plan.body == Some(RequestBody::UpdateKanban { title, description })
                    &&& plan.prints_body == true
                },
                Commands::Kanban { action: KanbanAction::Delete { id } } => {
                    &&& plan.method == Method::Delete
                    &&& plan.url@ == trim_slashes(server@) + route_path(Route::Kanban, id@)
                    &&& plan.body is None
                    &&& plan.prints_body == false
                },
                Commands::Column { action: ColumnAction::List { kanban_id } } => {
                    &&& plan.method == Method::Get
                    &&& plan.url@ == trim_slashes(server@) + route_path(Route::KanbanColumns, kanban_id@)
                    &&& plan.body is None
                    &&& plan.prints_body == true
                },
                Commands::Column { action: ColumnAction::Get { id } } => {
                    &&& plan.method == Method::Get
                    &&& plan.url@ == trim_slashes(server@) + route_path(Route::Column, id@)
                    &&& plan.body is None
                    &&& plan.prints_body == true
                },
                Commands::Column { action: ColumnAction::Create { kanban_id, title } } => {
                    &&& plan.method == Method::Post
                    &&& plan.url@ == trim_slashes(server@) + route_path(Route::KanbanColumns, kanban_id@)
                    &&& plan.body == Some(RequestBody::CreateColumn { title })
                    &&& plan.prints_body == true
                },
                Commands::Column { action: ColumnAction::Update { id, title } } => {
                    &&& plan.method == Method::Put
                    &&& plan.url@ == trim_slashes(server@) + route_path(Route::Column, id@)
                    &&& plan.body == Some(RequestBody::UpdateColumn { title })
                    &&& plan.prints_body == true
                },
                Commands::Column { action: ColumnAction::Delete { id } } => {
                    &&& plan.method == Method::Delete
                    &&& plan.url@ == trim_slashes(server@) + route_path(Route::Column, id@)
                    &&& plan.body is None
                    &&& plan.prints_body == false
                },
                Commands::Card { action: CardAction::List { column_id } } => {
                    &&& plan.method == Method::Get
                    &&& plan.url@ == trim_slashes(server@) + route_path(Route::ColumnCards, column_id@)
                    &&& plan.body is None
                    &&& plan.prints_body == true
                },
                Commands::Card { action: CardAction::Get { id } } => {
                    &&& plan.method == Method::Get
                    &&& plan.url@ == trim_slashes(server@) + route_path(Route::Card, id@)
                    &&& plan.body is None
                    &&& plan.prints_body == true
                },
                Commands::Card { action: CardAction::Create { column_id, title, description } } => {
                    &&& plan.method == Method::Post
                    &&& plan.url@ == trim_slashes(server@) + route_path(Route::ColumnCards, column_id@)
                    &&& plan.body == Some(RequestBody::CreateCard { title, description })
                    &&& plan.prints_body == true
                },
                Commands::Card { action: CardAction::Update { id, title, description } } => {
                    &&& plan.method == Method::Put
                    &&& plan.url@ == trim_slashes(server@) + route_path(Route::Card, id@)
                    &&& plan.body == Some(RequestBody::UpdateCard { title, description })
                    &&& plan.prints_body == true
                },
                Commands::Card { action: CardAction::Delete { id } } => {
                    &&& plan.method == Method::Delete
                    &&& plan.url@ == trim_slashes(server@) + route_path(Route::Card, id@)
                    &&& plan.body is None
                    &&& plan.prints_body == false
                },
            }
        }),
{
    let base = trim_end_slashes(server);
    let empty = String::new();
    match command {
        Commands::Kanban { action } => match action {
            KanbanAction::List => RequestPlan {
                method: Method::Get,
                url: route_url(&base, Route::Kanbans, &empty),
                body: None,
                prints_body: true,
            },
            KanbanAction::Get { id } => RequestPlan {
                method: Method::Get,
                url: route_url(&base, Route::Kanban, &id),
                body: None,
                prints_body: true,
            },
            KanbanAction::Create { title, description } => RequestPlan {
                method: Method::Post,
                url: route_url(&base, Route::Kanbans, &empty),
                body: Some(RequestBody::CreateKanban { title, description }),
                prints_body: true,
            },
            KanbanAction::Update { id, title, description } => RequestPlan {
                method: Method::Put,
                url: route_url(&base, Route::Kanban, &id),
                body: Some(RequestBody::UpdateKanban { title, description }),
                prints_body: true,
            },
            KanbanAction::Delete { id } => RequestPlan {
                method: Method::Delete,
                url: route_url(&base, Route::Kanban, &id),
                body: None,
                prints_body: false,
            },
        },
        Commands::Column { action } => match action {
            ColumnAction::List { kanban_id } => RequestPlan {
                method: Method::Get,
                url: route_url(&base, Route::KanbanColumns, &kanban_id),
                body: None,
                prints_body: true,
            },
            ColumnAction::Get { id } => RequestPlan {
                method: Method::Get,
                url: route_url(&base, Route::Column, &id),
                body: None,
                prints_body: true,
            },
            ColumnAction::Create { kanban_id, title } => RequestPlan {
                method: Method::Post,
                url: route_url(&base, Route::KanbanColumns, &kanban_id),
                body: Some(RequestBody::CreateColumn { title }),
                prints_body: true,
            },
            ColumnAction::Update { id, title } => RequestPlan {
                method: Method::Put,
                url: route_url(&base, Route::Column, &id),
                body: Some(RequestBody::UpdateColumn { title }),
                prints_body: true,
            },
            ColumnAction::Delete { id } => RequestPlan {
                method: Method::Delete,
                url: route_url(&base, Route::Column, &id),
                body: None,
                prints_body: false,
            },
        },
        Commands::Card { action } => match action {
            CardAction::List { column_id } => RequestPlan {
                method: Method::Get,
                url: route_url(&base, Route::ColumnCards, &column_id),
                body: None,
                prints_body: true,
            },
            CardAction::Get { id } => RequestPlan {
                method: Method::Get,
                url: route_url(&base, Route::Card, &id),
                body: None,
                prints_body: true,
            },
            CardAction::Create { column_id, title, description } => RequestPlan {
                method: Method::Post,
                url: route_url(&base, Route::ColumnCards, &column_id),
                body: Some(RequestBody::CreateCard { title, description }),
                prints_body: true,
            },
            CardAction::Update { id, title, description } => RequestPlan {
                method: Method::Put,
                url: route_url(&base, Route::Card, &id),
                body: Some(RequestBody::UpdateCard { title, description }),
                prints_body: true,
            },
            CardAction::Delete { id } => RequestPlan {
                method: Method::Delete,
                url: route_url(&base, Route::Card, &id),
                body: None,
                prints_body: false,
            },
        },
    }
}

/// How the client treats a response, by its status.
#[derive(Clone, Copy, Debug, PartialEq, Eq, Structural)]
pub enum ResponseKind {
    /// A success without content (204): the result is JSON `null`.
    NoContent,
    /// Another success (2xx): the body is parsed as JSON.
    JsonBody,
    /// Not a success: the command fails with a message.
    Failure,
}

/// 2xx is success; 204 carries no content.
pub open spec fn response_kind(code: u16) -> ResponseKind {
    if 200 <= code < 300 {
        if code == 204 {
            ResponseKind::NoContent
        } else {
            ResponseKind::JsonBody
        }
    } else {
        ResponseKind::Failure
    }
}

/// How a response with this status code is treated.
pub fn classify_status(code: u16) -> (k: ResponseKind)
    ensures
        k == response_kind(code),
{
    if 200 <= code && code < 300 {
        if code == 204 {
            ResponseKind::NoContent
        } else {
            ResponseKind::JsonBody
        }
    } else {
        ResponseKind::Failure
    }
}

/// What `http::StatusCode`'s `Display` writes for a code: the code in decimal,
/// a space, and its canonical reason phrase.
pub uninterp spec fn status_display_text(code: u16) -> Seq<char>;

/// `http::StatusCode::from_u16(code)` rendered with its `Display` impl
/// (`to_string`). Claimed: the text is `status_display_text(code)`, and (as
/// the impl writes `"{} {}"` with the code first) it begins with the code in
/// decimal and a space. The canonical reason phrases are left to the name.
#[verifier::external_body]
fn status_display(code: u16) -> (s: String)
    requires
        100 <= code <= 999,
    ensures
        s@ == status_display_text(code),
        s@.len() > decimal(code as nat).len(),
        s@.take(decimal(code as nat).len() + 1 as int) == decimal(code as nat).push(' '),
{
    match reqwest::StatusCode::from_u16(code) {
        Ok(status) => status.to_string(),
        Err(_) => String::new(),
    }
}

/// The message a failed command reports: the status as `http` displays it,
/// `": "`, and the `message` of the server's JSON error where the body was one
/// (`api_message`), or else the body text.
pub fn failure_message(code: u16, body: String, api_message: Option<String>) -> (m: String)
    requires
        100 <= code <= 999,
    ensures
        m@ == status_display_text(code) + ": "@ + match api_message {
            Some(msg) => msg@,
            None => body@,
        },
{
    let mut m = status_display(code);
    m.append(": ");
    match api_message {
        Some(msg) => m.append(msg.as_str()),
        None => m.append(body.as_str()),
    }
    m
}

/// The number of `/` in a text.
pub open spec fn slash_count(s: Seq<char>) -> nat
    decreases s.len(),
{
    if s.len() == 0 {
        0
    } else {
        slash_count(s.drop_last()) + if s.last() == '/' {
            1nat
        } else {
            0nat
        }
    }
}

proof fn lemma_slash_count_add(a: Seq<char>, b: Seq<char>)
    ensures
        slash_count(a + b) == slash_count(a) + slash_count(b),
    decreases b.len(),
{
    if b.len() > 0 {
        lemma_slash_count_add(a, b.drop_last());
        assert((a + b).drop_last() =~= a + b.drop_last());
    } else {
        assert(a + b =~= a);
    }
}

proof fn lemma_no_slash_count(s: Seq<char>)
    requires
        !s.contains('/'),
    ensures
        slash_count(s) == 0,
    decreases s.len(),
{
    if s.len() > 0 {
        assert(s.drop_last().len() < s.len());
        assert forall|i: int| 0 <= i < s.drop_last().len() implies s.drop_last()[i] != '/' by {
            assert(s.drop_last()[i] == s[i]);
        }
        assert(s[s.len() - 1] != '/');
        lemma_no_slash_count(s.drop_last());
    }
}

/// The path a command requests is the pattern the server registers for the
/// command's route with its `:name` parameter replaced by the command's
/// identifier; where that identifier holds no `/`, the path has as many
/// segments as the pattern, so the identifier fills exactly the parameter's
/// segment.
pub proof fn law_requests_fill_server_routes(c: Commands)
    ensures
        route_param(command_route(c)) matches Some(name) ==> {
            &&& route_pattern_text(command_route(c)) == route_prefix(command_route(c))
                + seq![':'] + name + route_suffix(command_route(c))
            &&& route_path(command_route(c), command_arg(c)) == route_prefix(command_route(c))
                + command_arg(c) + route_suffix(command_route(c))
        },
        route_param(command_route(c)) is None ==> route_path(command_route(c), command_arg(c))
            == route_pattern_text(command_route(c)),
        !command_arg(c).contains('/') ==> slash_count(
            route_path(command_route(c), command_arg(c)),
        ) == slash_count(route_pattern_text(command_route(c))),
{
    let r = command_route(c);
    let arg = command_arg(c);
    reveal_strlit("id");
    reveal_strlit("kanban_id");
    reveal_strlit("column_id");
    if !arg.contains('/') {
        if let Some(name) = route_param(r) {
            let colon_name = seq![':'] + name;
            assert(!colon_name.contains('/')) by {
                assert forall|i: int| 0 <= i < colon_name.len() implies colon_name[i] != '/' by {
                    if i > 0 {
                        assert(colon_name[i] == name[i - 1]);
                    }
                }
            }
            lemma_no_slash_count(colon_name);
            lemma_no_slash_count(arg);
            lemma_slash_count_add(route_prefix(r), arg);
            lemma_slash_count_add(route_prefix(r) + arg, route_suffix(r));
            lemma_slash_count_add(route_prefix(r), colon_name);
            lemma_slash_count_add(route_prefix(r) + colon_name, route_suffix(r));
            assert(route_prefix(r) + seq![':'] + name =~= route_prefix(r) + colon_name);
        }
    }
}

} // verus!
