use vstd::prelude::*;
use crate::reply::{error_reply, error_view, Body, BodyView, ErrorKind, ReplyStatus, Response, ResponseView};
use crate::routing::{done_spec, parse_done, Endpoint};
use crate::storage::{execute, Fault, Outcome, OutcomeView, Request, RequestView, Store};

verus! {

/// The fields of a JSON request body, each present or not.
#[derive(Debug, Clone, PartialEq, Eq)]
pub struct TodoBody {
    pub name: Option<String>,
    pub checked: Option<bool>,
}

pub struct TodoBodyView {
    pub name: Option<Seq<char>>,
    pub checked: Option<bool>,
}

impl View for TodoBody {
    type V = TodoBodyView;

    open spec fn view(&self) -> TodoBodyView {
        TodoBodyView {
            name: match self.name {
                Some(n) => Some(n@),
                None => None,
            },
            checked: self.checked,
        }
    }
}

pub open spec fn opt_str_view(v: Option<&str>) -> Option<Seq<char>> {
    match v {
        Some(s) => Some(s@),
        None => None,
    }
}

pub open spec fn opt_body_view(b: Option<TodoBody>) -> Option<TodoBodyView> {
    match b {
        Some(t) => Some(t@),
        None => None,
    }
}

/// The typed request for an endpoint, from the `done` query parameter and the
/// JSON body (`None` where the body is not a JSON object). A listing needs a
/// valid `done` if one is given; a creation needs `name`; an update needs
/// `name` and `checked`. Anything else is not looked at.
pub open spec fn request_spec(e: Endpoint, done: Option<Seq<char>>, body: Option<TodoBodyView>) -> Result<RequestView, ErrorKind> {
    match e {
        Endpoint::Health => Ok(RequestView::Health),
        Endpoint::List => match done {
            None => Ok(RequestView::List(None)),
            Some(v) => match done_spec(v) {
                Ok(f) => Ok(RequestView::List(f)),
                Err(k) => Err(k),
            },
        },
        Endpoint::Create => match body {
            Some(TodoBodyView { name: Some(n), .. }) => Ok(RequestView::Create(n)),
            _ => Err(ErrorKind::MalformedBody),
        },
        Endpoint::Update(id) => match body {
            Some(TodoBodyView { name: Some(n), checked: Some(c) }) => Ok(RequestView::Update(id as int, n, c)),
            _ => Err(ErrorKind::MalformedBody),
        },
        Endpoint::Delete(id) => Ok(RequestView::Delete(id as int)),
    }
}

/// Extracts the typed request for an endpoint.
pub fn make_request(e: Endpoint, done: Option<&str>, body: Option<TodoBody>) -> (r: Result<Request, ErrorKind>)
    ensures
        match r {
            Ok(q) => request_spec(e, opt_str_view(done), opt_body_view(body)) == Ok::<RequestView, ErrorKind>(q@),
            Err(k) => request_spec(e, opt_str_view(done), opt_body_view(body)) == Err::<RequestView, ErrorKind>(k),
        },
{
    match e {
        Endpoint::Health => Ok(Request::Health),
        Endpoint::List => match parse_done(done) {
            Ok(f) => Ok(Request::List { done: f }),
            Err(k) => Err(k),
        },
        Endpoint::Create => match body {
            Some(TodoBody { name: Some(n), .. }) => Ok(Request::Create { name: n }),
            _ => Err(ErrorKind::MalformedBody),
        },
        Endpoint::Update(id) => match body {
            Some(TodoBody { name: Some(n), checked: Some(c) }) => Ok(Request::Update { id, name: n, checked: c }),
            _ => Err(ErrorKind::MalformedBody),
        },
        Endpoint::Delete(id) => Ok(Request::Delete { id }),
    }
}

pub open spec fn kind_of(f: Fault) -> ErrorKind {
    match f {
        Fault::Pool => ErrorKind::Pool,
        Fault::Storage => ErrorKind::Storage,
    }
}

/// The reply of a reachable backend to the health probe.
pub open spec fn healthy_view() -> ResponseView {
    ResponseView { status: 200, body: BodyView::Message { message: "OK"@, status: ReplyStatus::Success } }
}

/// The reply to a request, given what the database answered. A failure goes
/// through the error mapper. A creation answers `201` with the new item; an
/// update `200` with the item, or not-found where no row matched; a deletion
/// `200` with an empty body, or not-found where no row was touched. An answer
/// of the wrong shape is an unclassified failure.
pub open spec fn respond_spec(q: RequestView, o: OutcomeView) -> ResponseView {
    match o {
        OutcomeView::Failed(f) => error_view(kind_of(f)),
        _ => match q {
            RequestView::Health => match o {
                OutcomeView::Reached => healthy_view(),
                _ => error_view(ErrorKind::Unclassified),
            },
            RequestView::List(_) => match o {
                OutcomeView::Rows(rs) => ResponseView { status: 200, body: BodyView::Items(rs) },
                _ => error_view(ErrorKind::Unclassified),
            },
            RequestView::Create(_) => match o {
                OutcomeView::Rows(rs) => if rs.len() > 0 {
                    ResponseView { status: 201, body: BodyView::Item(rs[0]) }
                } else {
                    error_view(ErrorKind::Unclassified)
                },
                _ => error_view(ErrorKind::Unclassified),
            },
            RequestView::Update(..) => match o {
                OutcomeView::Rows(rs) => if rs.len() > 0 {
                    ResponseView { status: 200, body: BodyView::Item(rs[0]) }
                } else {
                    error_view(ErrorKind::NotFound)
                },
                _ => error_view(ErrorKind::Unclassified),
            },
            RequestView::Delete(_) => match o {
                OutcomeView::Affected(n) => if n > 0 {
                    ResponseView { status: 200, body: BodyView::Empty }
                } else {
                    error_view(ErrorKind::NotFound)
                },
                _ => error_view(ErrorKind::Unclassified),
            },
        },
    }
}

/// Builds the reply to a request from what the database answered.
pub fn respond(req: &Request, outcome: Outcome) -> (r: Response)
    ensures
        r@ == respond_spec(req@, outcome@),
        req is Health ==> (r.status == 200 <==> outcome is Reached),
        req is Health && !(outcome is Reached) ==> r.status >= 500,
{
    match outcome {
        Outcome::Failed(Fault::Pool) => error_reply(ErrorKind::Pool),
        Outcome::Failed(Fault::Storage) => error_reply(ErrorKind::Storage),
        Outcome::Reached => match req {
            Request::Health => Response {
                status: 200,
                body: Body::Message { message: "OK", status: ReplyStatus::Success },
            },
            _ => error_reply(ErrorKind::Unclassified),
        },
        Outcome::Rows(mut rows) => match req {
            Request::List { .. } => Response { status: 200, body: Body::Items(rows) },
            Request::Create { .. } => if rows.len() > 0 {
                let item = rows.remove(0);
                Response { status: 201, body: Body::Item(item) }
            } else {
                error_reply(ErrorKind::Unclassified)
            },
            Request::Update { .. } => if rows.len() > 0 {
                let item = rows.remove(0);
                Response { status: 200, body: Body::Item(item) }
            } else {
                error_reply(ErrorKind::NotFound)
            },
            _ => error_reply(ErrorKind::Unclassified),
        },
        Outcome::Affected(n) => match req {
            Request::Delete { .. } => if n > 0 {
                Response { status: 200, body: Body::Empty }
            } else {
                error_reply(ErrorKind::NotFound)
            },
            _ => error_reply(ErrorKind::Unclassified),
        },
    }
}

/// The service as a whole on the model: the backend runs the request's
/// statement, and the reply is built from its answer.
pub open spec fn serve(s: Store, q: RequestView) -> (Store, ResponseView) {
    let (s1, o) = execute(s, q);
    (s1, respond_spec(q, o))
}

} // verus!
