use vstd::prelude::*;
use crate::item::{rows_of, Row, TodoItem};

verus! {

/// A typed request, after routing and extraction.
#[derive(Debug, Clone, PartialEq, Eq)]
pub enum Request {
    /// Prove that a connection can be had.
    Health,
    /// List the items, all of them or those whose `checked` equals `done`.
    List { done: Option<bool> },
    /// Insert an item with this name, not checked.
    Create { name: String },
    /// Replace name and flag of the item with this id.
    Update { id: i32, name: String, checked: bool },
    /// Remove the item with this id.
    Delete { id: i32 },
}

pub enum RequestView {
    Health,
    List(Option<bool>),
    Create(Seq<char>),
    Update(int, Seq<char>, bool),
    Delete(int),
}

impl View for Request {
    type V = RequestView;

    open spec fn view(&self) -> RequestView {
        match self {
            Request::Health => RequestView::Health,
            Request::List { done } => RequestView::List(*done),
            Request::Create { name } => RequestView::Create(name@),
            Request::Update { id, name, checked } => RequestView::Update(*id as int, name@, *checked),
            Request::Delete { id } => RequestView::Delete(*id as int),
        }
    }
}

/// A value bound to a placeholder of a statement.
#[derive(Debug, Clone, PartialEq, Eq)]
pub enum Param {
    Int(i32),
    Text(String),
    Bool(bool),
}

pub enum ParamView {
    Int(int),
    Text(Seq<char>),
    Bool(bool),
}

impl View for Param {
    type V = ParamView;

    open spec fn view(&self) -> ParamView {
        match self {
            Param::Int(i) => ParamView::Int(*i as int),
            Param::Text(s) => ParamView::Text(s@),
            Param::Bool(b) => ParamView::Bool(*b),
        }
    }
}

/// A parameterised statement: its text names its values `$1`, `$2`, .. and
/// never holds them.
#[derive(Debug, PartialEq, Eq)]
pub struct Statement {
    pub sql: &'static str,
    pub params: Vec<Param>,
    /// Whether the statement returns rows (else it reports how many it touched).
    pub returns_rows: bool,
}

pub struct StatementView {
    pub sql: Seq<char>,
    pub params: Seq<ParamView>,
    pub returns_rows: bool,
}

impl View for Statement {
    type V = StatementView;

    open spec fn view(&self) -> StatementView {
        StatementView {
            sql: self.sql@,
            params: self.params@.map_values(|p: Param| p@),
            returns_rows: self.returns_rows,
        }
    }
}

/// Why the database could not serve a statement.
#[derive(Debug, Clone, Copy, PartialEq, Eq, Structural)]
pub enum Fault {
    /// No connection: the pool is exhausted or the backend unreachable.
    Pool,
    /// The statement failed, for one a constraint that refused a value.
    Storage,
}

/// What came back from the database for a request.
#[derive(Debug, PartialEq, Eq)]
pub enum Outcome {
    /// A connection was had (the health probe).
    Reached,
    Rows(Vec<TodoItem>),
    Affected(u64),
    Failed(Fault),
}

pub enum OutcomeView {
    Reached,
    Rows(Seq<Row>),
    Affected(nat),
    Failed(Fault),
}

impl View for Outcome {
    type V = OutcomeView;

    open spec fn view(&self) -> OutcomeView {
        match self {
            Outcome::Reached => OutcomeView::Reached,
            Outcome::Rows(v) => OutcomeView::Rows(rows_of(v@)),
            Outcome::Affected(n) => OutcomeView::Affected(*n as nat),
            Outcome::Failed(f) => OutcomeView::Failed(*f),
        }
    }
}

pub open spec fn schema_sql_spec() -> Seq<char> {
    "CREATE TABLE IF NOT EXISTS todo (id SERIAL PRIMARY KEY NOT NULL, name VARCHAR(255) NOT NULL CHECK (name <> ''), checked BOOLEAN NOT NULL DEFAULT false)"@
}

/// The one idempotent statement that creates the table if it is absent. The
/// `CHECK` on `name` is what refuses an empty name.
pub fn schema_sql() -> (r: &'static str)
    ensures
        r@ == schema_sql_spec(),
{
    "CREATE TABLE IF NOT EXISTS todo (id SERIAL PRIMARY KEY NOT NULL, name VARCHAR(255) NOT NULL CHECK (name <> ''), checked BOOLEAN NOT NULL DEFAULT false)"
}

/// The statement for each request: `None` for the health probe, which only
/// takes a connection.
pub open spec fn statement_spec(q: RequestView) -> Option<StatementView> {
    match q {
        RequestView::Health => None,
        RequestView::List(None) => Some(StatementView {
            sql: "SELECT id, name, checked FROM todo ORDER BY id"@,
            params: seq![],
            returns_rows: true,
        }),
        RequestView::List(Some(done)) => Some(StatementView {
            sql: "SELECT id, name, checked FROM todo WHERE checked = $1 ORDER BY id"@,
            params: seq![ParamView::Bool(done)],
            returns_rows: true,
        }),
        RequestView::Create(name) => Some(StatementView {
            sql: "INSERT INTO todo (name) VALUES ($1) RETURNING id, name, checked"@,
            params: seq![ParamView::Text(name)],
            returns_rows: true,
        }),
        RequestView::Update(id, name, checked) => Some(StatementView {
            sql: "UPDATE todo SET name = $1, checked = $2 WHERE id = $3 RETURNING id, name, checked"@,
            params: seq![ParamView::Text(name), ParamView::Bool(checked), ParamView::Int(id)],
            returns_rows: true,
        }),
        RequestView::Delete(id) => Some(StatementView {
            sql: "DELETE FROM todo WHERE id = $1"@,
            params: seq![ParamView::Int(id)],
            returns_rows: false,
        }),
    }
}

/// Maps a request to its parameterised statement.
pub fn statement(req: &Request) -> (r: Option<Statement>)
    ensures
        r is None <==> statement_spec(req@) is None,
        r matches Some(st) ==> statement_spec(req@) == Some(st@),
{
    match req {
        Request::Health => None,
        Request::List { done: None } => {
            let params: Vec<Param> = Vec::new();
            let r = Statement { sql: "SELECT id, name, checked FROM todo ORDER BY id", params, returns_rows: true };
            assert(r@.params =~= seq![]);
            Some(r)
        },
        Request::List { done: Some(done) } => {
            let params: Vec<Param> = vec![Param::Bool(*done)];
            let r = Statement {
                sql: "SELECT id, name, checked FROM todo WHERE checked = $1 ORDER BY id",
                params,
                returns_rows: true,
            };
            assert(r@.params =~= seq![ParamView::Bool(*done)]);
            Some(r)
        },
        Request::Create { name } => {
            let params: Vec<Param> = vec![Param::Text(name.clone())];
            let r = Statement {
                sql: "INSERT INTO todo (name) VALUES ($1) RETURNING id, name, checked",
                params,
                returns_rows: true,
            };
            assert(r@.params =~= seq![ParamView::Text(name@)]);
            Some(r)
        },
        Request::Update { id, name, checked } => {
            let params: Vec<Param> = vec![Param::Text(name.clone()), Param::Bool(*checked), Param::Int(*id)];
            let r = Statement {
                sql: "UPDATE todo SET name = $1, checked = $2 WHERE id = $3 RETURNING id, name, checked",
                params,
                returns_rows: true,
            };
            assert(r@.params =~= seq![ParamView::Text(name@), ParamView::Bool(*checked), ParamView::Int(*id as int)]);
            Some(r)
        },
        Request::Delete { id } => {
            let params: Vec<Param> = vec![Param::Int(*id)];
            let r = Statement { sql: "DELETE FROM todo WHERE id = $1", params, returns_rows: false };
            assert(r@.params =~= seq![ParamView::Int(*id as int)]);
            Some(r)
        },
    }
}

/// The model of the backend: the table's rows in ascending id, the next id
/// that its sequence hands out, and whether it can be reached at all.
pub struct Store {
    pub rows: Seq<Row>,
    pub next_id: int,
    pub up: bool,
}

/// Ids are positive, unique, ascending and below the sequence; names are
/// not empty.
pub open spec fn store_wf(s: Store) -> bool {
    &&& 1 <= s.next_id
    &&& forall|i: int| 0 <= i < s.rows.len() ==> 1 <= #[trigger] s.rows[i].id < s.next_id
    &&& forall|i: int| 0 <= i < s.rows.len() ==> (#[trigger] s.rows[i]).name.len() > 0
    &&& forall|i: int, j: int| 0 <= i < j < s.rows.len() ==> s.rows[i].id < s.rows[j].id
}

pub open spec fn has_id(rows: Seq<Row>, id: int) -> bool {
    exists|i: int| 0 <= i < rows.len() && (#[trigger] rows[i]).id == id
}

pub open spec fn index_of(rows: Seq<Row>, id: int) -> int {
    choose|i: int| 0 <= i < rows.len() && (#[trigger] rows[i]).id == id
}

/// The rows that a listing returns, in table order.
pub open spec fn select(rows: Seq<Row>, done: Option<bool>) -> Seq<Row> {
    match done {
        None => rows,
        Some(b) => rows.filter(|r: Row| r.checked == b),
    }
}

/// What the backend does with each request's statement.
pub open spec fn execute(s: Store, q: RequestView) -> (Store, OutcomeView) {
    if !s.up {
        (s, OutcomeView::Failed(Fault::Pool))
    } else {
        match q {
            RequestView::Health => (s, OutcomeView::Reached),
            RequestView::List(done) => (s, OutcomeView::Rows(select(s.rows, done))),
            RequestView::Create(name) => if s.next_id > i32::MAX {
                (s, OutcomeView::Failed(Fault::Storage))
            } else if name.len() == 0 {
                // the sequence has moved on, the constraint refuses the row
                (Store { next_id: s.next_id + 1, ..s }, OutcomeView::Failed(Fault::Storage))
            } else {
                let r = Row { id: s.next_id, name, checked: false };
                (Store { rows: s.rows.push(r), next_id: s.next_id + 1, up: true }, OutcomeView::Rows(seq![r]))
            },
            RequestView::Update(id, name, checked) => if !has_id(s.rows, id) {
                (s, OutcomeView::Rows(seq![]))
            } else if name.len() == 0 {
                (s, OutcomeView::Failed(Fault::Storage))
            } else {
                let r = Row { id, name, checked };
                (Store { rows: s.rows.update(index_of(s.rows, id), r), ..s }, OutcomeView::Rows(seq![r]))
            },
            RequestView::Delete(id) => if !has_id(s.rows, id) {
                (s, OutcomeView::Affected(0))
            } else {
                (Store { rows: s.rows.remove(index_of(s.rows, id)), ..s }, OutcomeView::Affected(1))
            },
        }
    }
}

} // verus!
