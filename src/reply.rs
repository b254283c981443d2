use vstd::prelude::*;
use crate::item::{rows_of, Row, TodoItem};

verus! {

/// Every way a request can fail.
#[derive(Debug, Clone, Copy, PartialEq, Eq, Structural)]
pub enum ErrorKind {
    /// The JSON body does not have the expected shape.
    MalformedBody,
    /// The query string does not have the expected shape.
    MalformedQuery,
    /// No route matches the path.
    RouteNotFound,
    /// The path is known but not with this method.
    MethodNotAllowed,
    /// No item has the requested id.
    NotFound,
    /// The database refused or failed the statement (a constraint, for one).
    Storage,
    /// No connection could be had from the pool.
    Pool,
    /// Anything else.
    Unclassified,
}

/// The `status` discriminator of a message body.
#[derive(Debug, Clone, Copy, PartialEq, Eq, Structural)]
pub enum ReplyStatus {
    Success,
    /// The client's request was at fault (4xx).
    Fail,
    /// The server was at fault (5xx).
    Error,
}

pub open spec fn label_spec(s: ReplyStatus) -> Seq<char> {
    match s {
        ReplyStatus::Success => "success"@,
        ReplyStatus::Fail => "fail"@,
        ReplyStatus::Error => "error"@,
    }
}

impl ReplyStatus {
    /// The text of the `status` field.
    pub fn label(self) -> (r: &'static str)
        ensures
            r@ == label_spec(self),
    {
        match self {
            ReplyStatus::Success => "success",
            ReplyStatus::Fail => "fail",
            ReplyStatus::Error => "error",
        }
    }
}

/// What a reply carries, before it is written as JSON.
#[derive(Debug, PartialEq, Eq)]
pub enum Body {
    /// `{"message": .., "status": ..}`
    Message { message: &'static str, status: ReplyStatus },
    Item(TodoItem),
    Items(Vec<TodoItem>),
    Empty,
}

/// The model of a body.
pub enum BodyView {
    Message { message: Seq<char>, status: ReplyStatus },
    Item(Row),
    Items(Seq<Row>),
    Empty,
}

impl View for Body {
    type V = BodyView;

    open spec fn view(&self) -> BodyView {
        match self {
            Body::Message { message, status } => BodyView::Message { message: message@, status: *status },
            Body::Item(i) => BodyView::Item(i@),
            Body::Items(v) => BodyView::Items(rows_of(v@)),
            Body::Empty => BodyView::Empty,
        }
    }
}

/// An HTTP reply: a status code and a body.
#[derive(Debug, PartialEq, Eq)]
pub struct Response {
    pub status: u16,
    pub body: Body,
}

pub struct ResponseView {
    pub status: u16,
    pub body: BodyView,
}

impl View for Response {
    type V = ResponseView;

    open spec fn view(&self) -> ResponseView {
        ResponseView { status: self.status, body: self.body@ }
    }
}

pub open spec fn status_of(kind: ErrorKind) -> u16 {
    match kind {
        ErrorKind::MalformedBody => 400,
        ErrorKind::MalformedQuery => 400,
        ErrorKind::RouteNotFound => 404,
        ErrorKind::MethodNotAllowed => 405,
        ErrorKind::NotFound => 404,
        ErrorKind::Storage => 500,
        ErrorKind::Pool => 500,
        ErrorKind::Unclassified => 500,
    }
}

pub open spec fn message_of(kind: ErrorKind) -> Seq<char> {
    match kind {
        ErrorKind::MalformedBody => "Invalid Body"@,
        ErrorKind::MalformedQuery => "Invalid Query"@,
        ErrorKind::RouteNotFound => "Not Found"@,
        ErrorKind::MethodNotAllowed => "Method Not Allowed"@,
        ErrorKind::NotFound => "Not Found"@,
        ErrorKind::Storage => "Database Error"@,
        ErrorKind::Pool => "Database Connection Error"@,
        ErrorKind::Unclassified => "Internal Server Error"@,
    }
}

/// The reply that stands for a failure: its status code, its message, and
/// `fail` for a client error or `error` for a server error.
pub open spec fn error_view(kind: ErrorKind) -> ResponseView {
    ResponseView {
        status: status_of(kind),
        body: BodyView::Message {
            message: message_of(kind),
            status: if status_of(kind) < 500 { ReplyStatus::Fail } else { ReplyStatus::Error },
        },
    }
}

/// Turns a failure into its reply. Total: every kind has one.
pub fn error_reply(kind: ErrorKind) -> (r: Response)
    ensures
        r@ == error_view(kind),
        400 <= r.status < 600,
{
    let (status, message): (u16, &'static str) = match kind {
        ErrorKind::MalformedBody => (400, "Invalid Body"),
        ErrorKind::MalformedQuery => (400, "Invalid Query"),
        ErrorKind::RouteNotFound => (404, "Not Found"),
        ErrorKind::MethodNotAllowed => (405, "Method Not Allowed"),
        ErrorKind::NotFound => (404, "Not Found"),
        ErrorKind::Storage => (500, "Database Error"),
        ErrorKind::Pool => (500, "Database Connection Error"),
        ErrorKind::Unclassified => (500, "Internal Server Error"),
    };
    let discriminator = if status < 500 { ReplyStatus::Fail } else { ReplyStatus::Error };
    Response { status, body: Body::Message { message, status: discriminator } }
}

} // verus!
