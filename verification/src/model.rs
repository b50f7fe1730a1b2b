//! Boards ("kanbans"), their columns and the cards in a column, the request
//! bodies that create and change them, and how a new or changed row is formed.

use vstd::prelude::*;
use crate::clock::seconds_since_unix_epoch;
use crate::ids::{is_v4_uuid_text, new_id};
use crate::text::{decimal, is_u64_decimal, u64_to_decimal};

verus! {

/// A board.
#[derive(Clone, Debug)]
pub struct Kanban {
    pub id: String,
    pub title: String,
    pub description: String,
    pub created_at: String,
}

/// A column of a board; `position` orders the columns of one board.
#[derive(Clone, Debug)]
pub struct Column {
    pub id: String,
    pub kanban_id: String,
    pub title: String,
    pub position: i64,
    pub created_at: String,
}

/// A card in a column; `position` orders the cards of one column.
#[derive(Clone, Debug)]
pub struct Card {
    pub id: String,
    pub column_id: String,
    pub title: String,
    pub description: String,
    pub position: i64,
    pub created_at: String,
}

pub struct KanbanView {
    pub id: Seq<char>,
    pub title: Seq<char>,
    pub description: Seq<char>,
    pub created_at: Seq<char>,
}

pub struct ColumnView {
    pub id: Seq<char>,
    pub kanban_id: Seq<char>,
    pub title: Seq<char>,
    pub position: i64,
    pub created_at: Seq<char>,
}

pub struct CardView {
    pub id: Seq<char>,
    pub column_id: Seq<char>,
    pub title: Seq<char>,
    pub description: Seq<char>,
    pub position: i64,
    pub created_at: Seq<char>,
}

impl View for Kanban {
    type V = KanbanView;

    open spec fn view(&self) -> KanbanView {
        KanbanView {
            id: self.id@,
            title: self.title@,
            description: self.description@,
            created_at: self.created_at@,
        }
    }
}

impl DeepView for Kanban {
    type V = KanbanView;

    open spec fn deep_view(&self) -> KanbanView {
        self@
    }
}

impl View for Column {
    type V = ColumnView;

    open spec fn view(&self) -> ColumnView {
        ColumnView {
            id: self.id@,
            kanban_id: self.kanban_id@,
            title: self.title@,
            position: self.position,
            created_at: self.created_at@,
        }
    }
}

impl DeepView for Column {
    type V = ColumnView;

    open spec fn deep_view(&self) -> ColumnView {
        self@
    }
}

impl View for Card {
    type V = CardView;

    open spec fn view(&self) -> CardView {
        CardView {
            id: self.id@,
            column_id: self.column_id@,
            title: self.title@,
            description: self.description@,
            position: self.position,
            created_at: self.created_at@,
        }
    }
}

impl DeepView for Card {
    type V = CardView;

    open spec fn deep_view(&self) -> CardView {
        self@
    }
}

/// Body of a request that creates a board.
#[derive(Clone, Debug)]
pub struct CreateKanban {
    pub title: String,
    pub description: Option<String>,
}

/// Body of a request that changes a board; an absent field keeps its value.
#[derive(Clone, Debug)]
pub struct UpdateKanban {
    pub title: Option<String>,
    pub description: Option<String>,
}

/// Body of a request that creates a column.
#[derive(Clone, Debug)]
pub struct CreateColumn {
    pub title: String,
}

/// Body of a request that changes a column; an absent title keeps its value.
#[derive(Clone, Debug)]
pub struct UpdateColumn {
    pub title: Option<String>,
}

/// Body of a request that creates a card.
#[derive(Clone, Debug)]
pub struct CreateCard {
    pub title: String,
    pub description: Option<String>,
}

/// Body of a request that changes a card; an absent field keeps its value.
#[derive(Clone, Debug)]
pub struct UpdateCard {
    pub title: Option<String>,
    pub description: Option<String>,
}

/// The given text, or the empty text where none was given.
pub open spec fn text_or_empty(o: Option<String>) -> Seq<char> {
    match o {
        Some(s) => s@,
        None => Seq::empty(),
    }
}

/// The given text, or `current` where none was given.
pub open spec fn text_or(o: Option<String>, current: Seq<char>) -> Seq<char> {
    match o {
        Some(s) => s@,
        None => current,
    }
}

/// A board after an update with `body`: each field given replaces the current
/// one; the identifier is `id` and the creation time stays.
pub open spec fn kanban_after_update(id: Seq<char>, current: KanbanView, body: UpdateKanban) -> KanbanView {
    KanbanView {
        id,
        title: text_or(body.title, current.title),
        description: text_or(body.description, current.description),
        created_at: current.created_at,
    }
}

/// A column after an update with `body`: a given title replaces the current
/// one; the identifier is `id`; board, position and creation time stay.
pub open spec fn column_after_update(id: Seq<char>, current: ColumnView, body: UpdateColumn) -> ColumnView {
    ColumnView { id, title: text_or(body.title, current.title), ..current }
}

/// A card after an update with `body`: each field given replaces the current
/// one; the identifier is `id`; column, position and creation time stay.
pub open spec fn card_after_update(id: Seq<char>, current: CardView, body: UpdateCard) -> CardView {
    CardView {
        id,
        title: text_or(body.title, current.title),
        description: text_or(body.description, current.description),
        ..current
    }
}

fn take_or_empty(o: Option<String>) -> (s: String)
    ensures
        s@ == text_or_empty(o),
{
    match o {
        Some(s) => s,
        None => String::new(),
    }
}

fn take_or_copy(o: Option<String>, current: &String) -> (s: String)
    ensures
        s@ == text_or(o, current@),
{
    match o {
        Some(s) => s,
        None => current.clone(),
    }
}

impl Kanban {
    /// A copy with the same fields.
    pub fn duplicate(&self) -> (r: Kanban)
        ensures
            r@ == self@,
    {
        Kanban {
            id: self.id.clone(),
            title: self.title.clone(),
            description: self.description.clone(),
            created_at: self.created_at.clone(),
        }
    }
}

impl Column {
    /// A copy with the same fields.
    pub fn duplicate(&self) -> (r: Column)
        ensures
            r@ == self@,
    {
        Column {
            id: self.id.clone(),
            kanban_id: self.kanban_id.clone(),
            title: self.title.clone(),
            position: self.position,
            created_at: self.created_at.clone(),
        }
    }
}

impl Card {
    /// A copy with the same fields.
    pub fn duplicate(&self) -> (r: Card)
        ensures
            r@ == self@,
    {
        Card {
            id: self.id.clone(),
            column_id: self.column_id.clone(),
            title: self.title.clone(),
            description: self.description.clone(),
            position: self.position,
            created_at: self.created_at.clone(),
        }
    }
}

/// A copy of a list of boards, element by element.
pub fn duplicate_kanbans(v: &Vec<Kanban>) -> (r: Vec<Kanban>)
    ensures
        r.deep_view() == v.deep_view(),
{
    let mut r: Vec<Kanban> = Vec::new();
    let mut i: usize = 0;
    while i < v.len()
        invariant
            i <= v.len(),
            r.len() == i,
            forall|j: int| 0 <= j < i ==> (#[trigger] r@[j])@ == v@[j]@,
        decreases v.len() - i,
    {
        r.push(v[i].duplicate());
        i = i + 1;
    }
    assert(r.deep_view() =~= v.deep_view());
    r
}

/// A copy of a list of columns, element by element.
pub fn duplicate_columns(v: &Vec<Column>) -> (r: Vec<Column>)
    ensures
        r.deep_view() == v.deep_view(),
{
    let mut r: Vec<Column> = Vec::new();
    let mut i: usize = 0;
    while i < v.len()
        invariant
            i <= v.len(),
            r.len() == i,
            forall|j: int| 0 <= j < i ==> (#[trigger] r@[j])@ == v@[j]@,
        decreases v.len() - i,
    {
        r.push(v[i].duplicate());
        i = i + 1;
    }
    assert(r.deep_view() =~= v.deep_view());
    r
}

/// A copy of a list of cards, element by element.
pub fn duplicate_cards(v: &Vec<Card>) -> (r: Vec<Card>)
    ensures
        r.deep_view() == v.deep_view(),
{
    let mut r: Vec<Card> = Vec::new();
    let mut i: usize = 0;
    while i < v.len()
        invariant
            i <= v.len(),
            r.len() == i,
            forall|j: int| 0 <= j < i ==> (#[trigger] r@[j])@ == v@[j]@,
        decreases v.len() - i,
    {
        r.push(v[i].duplicate());
        i = i + 1;
    }
    assert(r.deep_view() =~= v.deep_view());
    r
}

/// What a create needs from outside the request: a fresh identifier, and the
/// system clock's reading in whole seconds since the Unix epoch (`None` where
/// the clock reads earlier than the epoch).
#[derive(Clone, Debug)]
pub struct Fresh {
    pub id: String,
    pub clock: Option<u64>,
}

/// Draws a fresh identifier and reads the clock.
pub fn draw_fresh() -> (f: Fresh)
    ensures
        is_v4_uuid_text(f.id@),
{
    let id = new_id();
    Fresh { id, clock: seconds_since_unix_epoch() }
}

/// The board that a create request makes: a missing description is empty.
pub fn new_kanban(id: String, body: CreateKanban, created_at: String) -> (k: Kanban)
    ensures
        k@ == (KanbanView {
            id: id@,
            title: body.title@,
            description: text_or_empty(body.description),
            created_at: created_at@,
        }),
{
    Kanban {
        id,
        title: body.title,
        description: take_or_empty(body.description),
        created_at,
    }
}

/// The board a create request makes with `fresh`: its identifier, and the
/// clock's reading in decimal as the creation time. `None` exactly where the
/// clock read earlier than the epoch.
pub fn kanban_from(body: CreateKanban, fresh: Fresh) -> (r: Option<Kanban>)
    ensures
        match fresh.clock {
            None => r is None,
            Some(secs) => r matches Some(k) && k@ == (KanbanView {
                id: fresh.id@,
                title: body.title@,
                description: text_or_empty(body.description),
                created_at: decimal(secs as nat),
            }),
        },
{
    match fresh.clock {
        Some(secs) => Some(new_kanban(fresh.id, body, u64_to_decimal(secs))),
        None => None,
    }
}

/// The board a create request makes, under a fresh identifier and the
/// current time. `None` where the system clock reads earlier than the epoch.
pub fn prepare_kanban(body: CreateKanban) -> (r: Option<Kanban>)
    ensures
        r matches Some(k) ==> {
            &&& is_v4_uuid_text(k.id@)
            &&& is_u64_decimal(k.created_at@)
            &&& k.title@ == body.title@
            &&& k.description@ == text_or_empty(body.description)
        },
{
    let fresh = draw_fresh();
    let ghost f = fresh;
    let r = kanban_from(body, fresh);
    proof {
        if let Some(secs) = f.clock {
            assert(r->0.created_at@ == decimal(secs as nat));
        }
    }
    r
}

/// The board after an update: each field given replaces the current one; the
/// identifier is the one addressed and the creation time stays.
pub fn updated_kanban(id: String, current: Kanban, body: UpdateKanban) -> (k: Kanban)
    ensures
        k@ == (KanbanView {
            id: id@,
            title: text_or(body.title, current.title@),
            description: text_or(body.description, current.description@),
            created_at: current.created_at@,
        }),
{
    let title = take_or_copy(body.title, &current.title);
    let description = take_or_copy(body.description, &current.description);
    Kanban { id, title, description, created_at: current.created_at }
}

/// The column that a create request makes at the given position.
pub fn new_column(
    id: String,
    kanban_id: String,
    body: CreateColumn,
    position: i64,
    created_at: String,
) -> (c: Column)
    ensures
        c@ == (ColumnView {
            id: id@,
            kanban_id: kanban_id@,
            title: body.title@,
            position,
            created_at: created_at@,
        }),
{
    Column { id, kanban_id, title: body.title, position, created_at }
}

/// The column a create request makes with `fresh`, placed after the last
/// column of its board (`max_position` is the largest position there, or -1
/// where the board has none). `None` exactly where the clock read earlier
/// than the epoch.
pub fn column_from(kanban_id: String, body: CreateColumn, max_position: i64, fresh: Fresh) -> (r:
    Option<Column>)
    requires
        max_position < i64::MAX,
    ensures
        match fresh.clock {
            None => r is None,
            Some(secs) => r matches Some(c) && c@ == (ColumnView {
                id: fresh.id@,
                kanban_id: kanban_id@,
                title: body.title@,
                position: (max_position + 1) as i64,
                created_at: decimal(secs as nat),
            }),
        },
{
    match fresh.clock {
        Some(secs) => Some(
            new_column(fresh.id, kanban_id, body, max_position + 1, u64_to_decimal(secs)),
        ),
        None => None,
    }
}

/// The column a create request makes: placed after the last column of its
/// board (`max_position` is the largest position there, or -1 where the board
/// has none), under a fresh identifier and the current time. `None` where the
/// system clock reads earlier than the epoch.
pub fn prepare_column(kanban_id: String, body: CreateColumn, max_position: i64) -> (r: Option<
    Column,
>)
    requires
        max_position < i64::MAX,
    ensures
        r matches Some(c) ==> {
            &&& is_v4_uuid_text(c.id@)
            &&& is_u64_decimal(c.created_at@)
            &&& c.kanban_id@ == kanban_id@
            &&& c.title@ == body.title@
            &&& c.position == max_position + 1
        },
{
    let fresh = draw_fresh();
    let ghost f = fresh;
    let r = column_from(kanban_id, body, max_position, fresh);
    proof {
        if let Some(secs) = f.clock {
            assert(r->0.created_at@ == decimal(secs as nat));
        }
    }
    r
}

/// The column after an update: a given title replaces the current one; board,
/// position and creation time stay.
pub fn updated_column(id: String, current: Column, body: UpdateColumn) -> (c: Column)
    ensures
        c@ == (ColumnView {
            id: id@,
            kanban_id: current.kanban_id@,
            title: text_or(body.title, current.title@),
            position: current.position,
            created_at: current.created_at@,
        }),
{
    let title = take_or_copy(body.title, &current.title);
    Column {
        id,
        kanban_id: current.kanban_id,
        title,
        position: current.position,
        created_at: current.created_at,
    }
}

/// The card that a create request makes at the given position: a missing
/// description is empty.
pub fn new_card(
    id: String,
    column_id: String,
    body: CreateCard,
    position: i64,
    created_at: String,
) -> (c: Card)
    ensures
        c@ == (CardView {
            id: id@,
            column_id: column_id@,
            title: body.title@,
            description: text_or_empty(body.description),
            position,
            created_at: created_at@,
        }),
{
    Card {
        id,
        column_id,
        title: body.title,
        description: take_or_empty(body.description),
        position,
        created_at,
    }
}

/// The card a create request makes with `fresh`, placed after the last card
/// of its column (`max_position` is the largest position there, or -1 where
/// the column has none). `None` exactly where the clock read earlier than the
/// epoch.
pub fn card_from(column_id: String, body: CreateCard, max_position: i64, fresh: Fresh) -> (r:
    Option<Card>)
    requires
        max_position < i64::MAX,
    ensures
        match fresh.clock {
            None => r is None,
            Some(secs) => r matches Some(c) && c@ == (CardView {
                id: fresh.id@,
                column_id: column_id@,
                title: body.title@,
                description: text_or_empty(body.description),
                position: (max_position + 1) as i64,
                created_at: decimal(secs as nat),
            }),
        },
{
    match fresh.clock {
        Some(secs) => Some(
            new_card(fresh.id, column_id, body, max_position + 1, u64_to_decimal(secs)),
        ),
        None => None,
    }
}

/// The card a create request makes: placed after the last card of its column
/// (`max_position` is the largest position there, or -1 where the column has
/// none), under a fresh identifier and the current time. `None` where the
/// system clock reads earlier than the epoch.
pub fn prepare_card(column_id: String, body: CreateCard, max_position: i64) -> (r: Option<Card>)
    requires
        max_position < i64::MAX,
    ensures
        r matches Some(c) ==> {
            &&& is_v4_uuid_text(c.id@)
            &&& is_u64_decimal(c.created_at@)
            &&& c.column_id@ == column_id@
            &&& c.title@ == body.title@
            &&& c.description@ == text_or_empty(body.description)
            &&& c.position == max_position + 1
        },
{
    let fresh = draw_fresh();
    let ghost f = fresh;
    let r = card_from(column_id, body, max_position, fresh);
    proof {
        if let Some(secs) = f.clock {
            assert(r->0.created_at@ == decimal(secs as nat));
        }
    }
    r
}

/// The card after an update: each field given replaces the current one;
/// column, position and creation time stay.
pub fn updated_card(id: String, current: Card, body: UpdateCard) -> (c: Card)
    ensures
        c@ == (CardView {
            id: id@,
            column_id: current.column_id@,
            title: text_or(body.title, current.title@),
            description: text_or(body.description, current.description@),
            position: current.position,
            created_at: current.created_at@,
        }),
{
    let title = take_or_copy(body.title, &current.title);
    let description = take_or_copy(body.description, &current.description);
    Card {
        id,
        column_id: current.column_id,
        title,
        description,
        position: current.position,
        created_at: current.created_at,
    }
}

} // verus!
