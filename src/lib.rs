//! A small CRUD service over todo items: routing, the extraction of typed
//! requests, the parameterised statements sent to the database, and the
//! mapping of outcomes and failures to HTTP replies. The transport and the
//! database connection live outside this library; `storage` also holds a
//! model of the backend, over which `guarantees` states what the service does
//! across requests.

pub mod handler;
pub mod item;
pub mod guarantees;
pub mod reply;
pub mod routing;
pub mod storage;

pub use handler::{make_request, respond, TodoBody};
pub use item::TodoItem;
pub use reply::{error_reply, Body, ErrorKind, ReplyStatus, Response};
pub use routing::{parse_done, route, Endpoint, Method, Resource};
pub use storage::{schema_sql, statement, Fault, Outcome, Param, Request, Statement};
