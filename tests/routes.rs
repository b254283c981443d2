use todo_service::{parse_done, route, Endpoint, ErrorKind, Method};

#[test]
fn health_route() {
    assert_eq!(route(Method::Get, "/health"), Ok(Endpoint::Health));
}

#[test]
fn todo_collection_routes() {
    assert_eq!(route(Method::Get, "/todo"), Ok(Endpoint::List));
    assert_eq!(route(Method::Post, "/todo"), Ok(Endpoint::Create));
}

#[test]
fn todo_item_routes() {
    assert_eq!(route(Method::Put, "/todo/42"), Ok(Endpoint::Update(42)));
    assert_eq!(route(Method::Delete, "/todo/7"), Ok(Endpoint::Delete(7)));
    assert_eq!(route(Method::Delete, "/todo/0"), Ok(Endpoint::Delete(0)));
}

#[test]
fn largest_id_is_accepted() {
    assert_eq!(route(Method::Put, "/todo/2147483647"), Ok(Endpoint::Update(2147483647)));
}

#[test]
fn id_beyond_i32_is_no_route() {
    assert_eq!(route(Method::Put, "/todo/2147483648"), Err(ErrorKind::RouteNotFound));
    assert_eq!(route(Method::Delete, "/todo/99999999999"), Err(ErrorKind::RouteNotFound));
}

#[test]
fn malformed_ids_are_no_route() {
    assert_eq!(route(Method::Put, "/todo/"), Err(ErrorKind::RouteNotFound));
    assert_eq!(route(Method::Put, "/todo/abc"), Err(ErrorKind::RouteNotFound));
    assert_eq!(route(Method::Put, "/todo/-1"), Err(ErrorKind::RouteNotFound));
    assert_eq!(route(Method::Delete, "/todo/12x"), Err(ErrorKind::RouteNotFound));
}

#[test]
fn unknown_paths_are_no_route() {
    assert_eq!(route(Method::Get, "/"), Err(ErrorKind::RouteNotFound));
    assert_eq!(route(Method::Get, ""), Err(ErrorKind::RouteNotFound));
    assert_eq!(route(Method::Get, "/healthz"), Err(ErrorKind::RouteNotFound));
    assert_eq!(route(Method::Get, "/todos"), Err(ErrorKind::RouteNotFound));
    assert_eq!(route(Method::Get, "/Todo"), Err(ErrorKind::RouteNotFound));
}

#[test]
fn wrong_method_is_not_allowed() {
    assert_eq!(route(Method::Post, "/health"), Err(ErrorKind::MethodNotAllowed));
    assert_eq!(route(Method::Delete, "/todo"), Err(ErrorKind::MethodNotAllowed));
    assert_eq!(route(Method::Get, "/todo/3"), Err(ErrorKind::MethodNotAllowed));
    assert_eq!(route(Method::Other, "/todo/3"), Err(ErrorKind::MethodNotAllowed));
}

#[test]
fn done_flag_values() {
    assert_eq!(parse_done(None), Ok(None));
    assert_eq!(parse_done(Some("true")), Ok(Some(true)));
    assert_eq!(parse_done(Some("false")), Ok(Some(false)));
}

#[test]
fn done_flag_malformed() {
    assert_eq!(parse_done(Some("")), Err(ErrorKind::MalformedQuery));
    assert_eq!(parse_done(Some("TRUE")), Err(ErrorKind::MalformedQuery));
    assert_eq!(parse_done(Some("yes")), Err(ErrorKind::MalformedQuery));
    assert_eq!(parse_done(Some("falsey")), Err(ErrorKind::MalformedQuery));
}
