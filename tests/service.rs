use todo_service::{
    make_request, respond, schema_sql, statement, Body, Endpoint, ErrorKind, Fault, Outcome, Param,
    ReplyStatus, Request, Response, Statement, TodoBody, TodoItem,
};

fn item(id: i32, name: &str, checked: bool) -> TodoItem {
    TodoItem::new(id, name.to_string(), checked)
}

fn body(name: Option<&str>, checked: Option<bool>) -> Option<TodoBody> {
    Some(TodoBody { name: name.map(|n| n.to_string()), checked })
}

fn failure(status: u16, message: &'static str, kind: ReplyStatus) -> Response {
    Response { status, body: Body::Message { message, status: kind } }
}

#[test]
fn requests_from_endpoints() {
    assert_eq!(make_request(Endpoint::Health, None, None), Ok(Request::Health));
    assert_eq!(make_request(Endpoint::List, None, None), Ok(Request::List { done: None }));
    assert_eq!(make_request(Endpoint::List, Some("true"), None), Ok(Request::List { done: Some(true) }));
    assert_eq!(
        make_request(Endpoint::Create, None, body(Some("walk"), None)),
        Ok(Request::Create { name: "walk".to_string() })
    );
    assert_eq!(
        make_request(Endpoint::Update(3), None, body(Some("walk"), Some(true))),
        Ok(Request::Update { id: 3, name: "walk".to_string(), checked: true })
    );
    assert_eq!(make_request(Endpoint::Delete(9), None, None), Ok(Request::Delete { id: 9 }));
}

#[test]
fn malformed_requests() {
    assert_eq!(make_request(Endpoint::List, Some("maybe"), None), Err(ErrorKind::MalformedQuery));
    assert_eq!(make_request(Endpoint::Create, None, None), Err(ErrorKind::MalformedBody));
    assert_eq!(make_request(Endpoint::Create, None, body(None, Some(true))), Err(ErrorKind::MalformedBody));
    assert_eq!(make_request(Endpoint::Update(1), None, body(Some("a"), None)), Err(ErrorKind::MalformedBody));
    assert_eq!(make_request(Endpoint::Update(1), None, body(None, Some(false))), Err(ErrorKind::MalformedBody));
    assert_eq!(make_request(Endpoint::Update(1), None, None), Err(ErrorKind::MalformedBody));
}

#[test]
fn statements_are_parameterised() {
    assert_eq!(statement(&Request::Health), None);
    assert_eq!(
        statement(&Request::List { done: None }),
        Some(Statement { sql: "SELECT id, name, checked FROM todo ORDER BY id", params: vec![], returns_rows: true })
    );
    assert_eq!(
        statement(&Request::List { done: Some(false) }),
        Some(Statement {
            sql: "SELECT id, name, checked FROM todo WHERE checked = $1 ORDER BY id",
            params: vec![Param::Bool(false)],
            returns_rows: true,
        })
    );
    let hostile = "x'); DROP TABLE todo; --";
    assert_eq!(
        statement(&Request::Create { name: hostile.to_string() }),
        Some(Statement {
            sql: "INSERT INTO todo (name) VALUES ($1) RETURNING id, name, checked",
            params: vec![Param::Text(hostile.to_string())],
            returns_rows: true,
        })
    );
    assert_eq!(
        statement(&Request::Update { id: 5, name: "X".to_string(), checked: true }),
        Some(Statement {
            sql: "UPDATE todo SET name = $1, checked = $2 WHERE id = $3 RETURNING id, name, checked",
            params: vec![Param::Text("X".to_string()), Param::Bool(true), Param::Int(5)],
            returns_rows: true,
        })
    );
    assert_eq!(
        statement(&Request::Delete { id: 5 }),
        Some(Statement { sql: "DELETE FROM todo WHERE id = $1", params: vec![Param::Int(5)], returns_rows: false })
    );
}

#[test]
fn schema_refuses_empty_names() {
    let ddl = schema_sql();
    assert!(ddl.starts_with("CREATE TABLE IF NOT EXISTS todo"));
    assert!(ddl.contains("CHECK (name <> '')"));
    assert!(ddl.contains("checked BOOLEAN NOT NULL DEFAULT false"));
}

#[test]
fn create_then_list_returns_item_once() {
    let req = make_request(Endpoint::Create, None, body(Some("buy milk"), None)).unwrap();
    let created = respond(&req, Outcome::Rows(vec![item(1, "buy milk", false)]));
    assert_eq!(created, Response { status: 201, body: Body::Item(item(1, "buy milk", false)) });
    let list = make_request(Endpoint::List, None, None).unwrap();
    let listed = respond(&list, Outcome::Rows(vec![item(1, "buy milk", false)]));
    assert_eq!(listed, Response { status: 200, body: Body::Items(vec![item(1, "buy milk", false)]) });
}

#[test]
fn list_not_done_uses_filter() {
    let list = make_request(Endpoint::List, Some("false"), None).unwrap();
    let st = statement(&list).unwrap();
    assert_eq!(st.params, vec![Param::Bool(false)]);
    let listed = respond(&list, Outcome::Rows(vec![item(2, "a", false), item(4, "b", false)]));
    assert_eq!(listed, Response { status: 200, body: Body::Items(vec![item(2, "a", false), item(4, "b", false)]) });
    let done = make_request(Endpoint::List, Some("true"), None).unwrap();
    assert_eq!(statement(&done).unwrap().params, vec![Param::Bool(true)]);
    assert_eq!(respond(&done, Outcome::Rows(vec![])), Response { status: 200, body: Body::Items(vec![]) });
}

#[test]
fn update_missing_is_not_found() {
    let req = make_request(Endpoint::Update(99), None, body(Some("x"), Some(false))).unwrap();
    assert_eq!(respond(&req, Outcome::Rows(vec![])), failure(404, "Not Found", ReplyStatus::Fail));
}

#[test]
fn delete_then_delete_again() {
    let req = make_request(Endpoint::Delete(3), None, None).unwrap();
    assert_eq!(respond(&req, Outcome::Affected(1)), Response { status: 200, body: Body::Empty });
    assert_eq!(respond(&req, Outcome::Affected(0)), failure(404, "Not Found", ReplyStatus::Fail));
}

#[test]
fn create_empty_name_is_refused_by_storage() {
    let req = make_request(Endpoint::Create, None, body(Some(""), None)).unwrap();
    assert_eq!(req, Request::Create { name: String::new() });
    assert_eq!(
        respond(&req, Outcome::Failed(Fault::Storage)),
        failure(500, "Database Error", ReplyStatus::Error)
    );
}

#[test]
fn health_reflects_backend() {
    assert_eq!(
        respond(&Request::Health, Outcome::Reached),
        Response { status: 200, body: Body::Message { message: "OK", status: ReplyStatus::Success } }
    );
    assert_eq!(
        respond(&Request::Health, Outcome::Failed(Fault::Pool)),
        failure(500, "Database Connection Error", ReplyStatus::Error)
    );
}

#[test]
fn update_then_list_done() {
    let req = make_request(Endpoint::Update(7), None, body(Some("X"), Some(true))).unwrap();
    let updated = respond(&req, Outcome::Rows(vec![item(7, "X", true)]));
    assert_eq!(updated, Response { status: 200, body: Body::Item(item(7, "X", true)) });
    let list = make_request(Endpoint::List, Some("true"), None).unwrap();
    let listed = respond(&list, Outcome::Rows(vec![item(7, "X", true)]));
    match listed.body {
        Body::Items(items) => assert!(items.iter().any(|i| i.name == "X" && i.checked)),
        other => panic!("unexpected body {:?}", other),
    }
}

#[test]
fn failures_of_any_request_go_through_mapper() {
    let req = Request::List { done: None };
    assert_eq!(
        respond(&req, Outcome::Failed(Fault::Pool)),
        failure(500, "Database Connection Error", ReplyStatus::Error)
    );
    let del = Request::Delete { id: 1 };
    assert_eq!(respond(&del, Outcome::Failed(Fault::Storage)), failure(500, "Database Error", ReplyStatus::Error));
}

#[test]
fn answers_of_wrong_shape_are_unclassified() {
    let err = failure(500, "Internal Server Error", ReplyStatus::Error);
    assert_eq!(respond(&Request::Health, Outcome::Affected(1)), err);
    assert_eq!(respond(&Request::List { done: None }, Outcome::Reached), err);
    assert_eq!(respond(&Request::Create { name: "a".to_string() }, Outcome::Rows(vec![])), err);
    assert_eq!(respond(&Request::Delete { id: 1 }, Outcome::Rows(vec![])), err);
}
