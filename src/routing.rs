use vstd::prelude::*;
use crate::reply::ErrorKind;

verus! {

/// The HTTP methods that the routes tell apart.
#[derive(Debug, Clone, Copy, PartialEq, Eq, Structural)]
pub enum Method {
    Get,
    Post,
    Put,
    Delete,
    /// Any other method.
    Other,
}

/// The resources that a path can name.
#[derive(Debug, Clone, Copy, PartialEq, Eq, Structural)]
pub enum Resource {
    /// `/health`
    Health,
    /// `/todo`
    Todos,
    /// `/todo/{id}`
    Todo(i32),
}

/// What a request asks for, once method and path are matched.
#[derive(Debug, Clone, Copy, PartialEq, Eq, Structural)]
pub enum Endpoint {
    /// `GET /health`
    Health,
    /// `GET /todo`
    List,
    /// `POST /todo`
    Create,
    /// `PUT /todo/{id}`
    Update(i32),
    /// `DELETE /todo/{id}`
    Delete(i32),
}

pub open spec fn is_digit(c: char) -> bool {
    '0' <= c && c <= '9'
}

/// The value of a string of decimal digits.
pub open spec fn digits_value(s: Seq<char>) -> int
    decreases s.len(),
{
    if s.len() == 0 {
        0
    } else {
        digits_value(s.drop_last()) * 10 + (s.last() as int - '0' as int)
    }
}

/// An id in a path: one or more decimal digits whose value fits in `i32`.
pub open spec fn id_of(s: Seq<char>) -> Option<int> {
    if 0 < s.len() && (forall|i: int| 0 <= i < s.len() ==> is_digit(#[trigger] s[i]))
        && digits_value(s) <= i32::MAX {
        Some(digits_value(s))
    } else {
        None
    }
}

/// The resource that a path names, if any.
pub open spec fn resource_of(p: Seq<char>) -> Option<Resource> {
    if p == "/health"@ {
        Some(Resource::Health)
    } else if p == "/todo"@ {
        Some(Resource::Todos)
    } else if p.len() > 6 && p.subrange(0, 6) == "/todo/"@ && id_of(p.subrange(6, p.len() as int)) is Some {
        Some(Resource::Todo(id_of(p.subrange(6, p.len() as int))->0 as i32))
    } else {
        None
    }
}

/// The route table: which method goes with which resource.
pub open spec fn endpoint_of(m: Method, r: Resource) -> Option<Endpoint> {
    match (m, r) {
        (Method::Get, Resource::Health) => Some(Endpoint::Health),
        (Method::Get, Resource::Todos) => Some(Endpoint::List),
        (Method::Post, Resource::Todos) => Some(Endpoint::Create),
        (Method::Put, Resource::Todo(id)) => Some(Endpoint::Update(id)),
        (Method::Delete, Resource::Todo(id)) => Some(Endpoint::Delete(id)),
        _ => None,
    }
}

pub open spec fn route_spec(m: Method, p: Seq<char>) -> Result<Endpoint, ErrorKind> {
    match resource_of(p) {
        None => Err(ErrorKind::RouteNotFound),
        Some(r) => match endpoint_of(m, r) {
            Some(e) => Ok(e),
            None => Err(ErrorKind::MethodNotAllowed),
        },
    }
}

/// Whether `word` stands in `p` from position `start` on.
fn stands_at(p: &str, start: usize, word: &str) -> (r: bool)
    requires
        start <= p@.len(),
    ensures
        r == (start + word@.len() <= p@.len() && p@.subrange(start as int, start + word@.len()) == word@),
{
    let n = p.unicode_len();
    let k = word.unicode_len();
    if k > n - start {
        return false;
    }
    let mut i: usize = 0;
    while i < k
        invariant
            k == word@.len(),
            n == p@.len(),
            start + k <= n,
            i <= k,
            forall|j: int| 0 <= j < i ==> p@[start + j] == word@[j],
        decreases k - i,
    {
        if p.get_char(start + i) != word.get_char(i) {
            assert(p@.subrange(start as int, start + k)[i as int] != word@[i as int]);
            return false;
        }
        i += 1;
    }
    assert(p@.subrange(start as int, start + k) =~= word@);
    true
}

/// Reads the id that makes up `p` from position `start` to its end.
fn parse_id(p: &str, start: usize) -> (r: Option<i32>)
    requires
        start <= p@.len(),
    ensures
        r is Some <==> id_of(p@.subrange(start as int, p@.len() as int)) is Some,
        r matches Some(v) ==> id_of(p@.subrange(start as int, p@.len() as int)) == Some(v as int),
{
    let n = p.unicode_len();
    let ghost s = p@.subrange(start as int, n as int);
    if n == start {
        return None;
    }
    let mut value: i32 = 0;
    let mut i: usize = start;
    while i < n
        invariant
            n == p@.len(),
            s == p@.subrange(start as int, n as int),
            start <= i <= n,
            forall|j: int| 0 <= j < i - start ==> is_digit(#[trigger] s[j]),
            value as int == digits_value(s.subrange(0, i - start)),
            0 <= value,
        decreases n - i,
    {
        let c = p.get_char(i);
        assert(s[i - start] == c);
        if c < '0' || c > '9' {
            assert(!is_digit(s[i - start]));
            return None;
        }
        let d: i32 = (c as u32 - '0' as u32) as i32;
        assert(s.subrange(0, i - start + 1).drop_last() =~= s.subrange(0, i - start));
        if value > (i32::MAX - d) / 10 {
            proof {
                let k = i - start + 1;
                assert(digits_value(s.subrange(0, k)) > i32::MAX) by (nonlinear_arith)
                    requires
                        digits_value(s.subrange(0, k)) == value * 10 + d,
                        value > (i32::MAX - d) / 10,
                        0 <= d <= 9,
                ;
                if forall|j: int| 0 <= j < s.len() ==> is_digit(#[trigger] s[j]) {
                    lemma_digits_grow(s, k);
                }
            }
            return None;
        }
        value = value * 10 + d;
        i += 1;
    }
    assert(s.subrange(0, n - start) =~= s);
    Some(value)
}

/// A longer prefix of digits never has a smaller value.
proof fn lemma_digits_grow(s: Seq<char>, k: int)
    requires
        0 <= k <= s.len(),
        forall|j: int| 0 <= j < s.len() ==> is_digit(#[trigger] s[j]),
    ensures
        digits_value(s.subrange(0, k)) <= digits_value(s),
    decreases s.len() - k,
{
    if k < s.len() {
        lemma_digits_grow(s, k + 1);
        assert(s.subrange(0, k + 1).drop_last() =~= s.subrange(0, k));
        lemma_digits_nonneg(s.subrange(0, k));
    } else {
        assert(s.subrange(0, k) =~= s);
    }
}

proof fn lemma_digits_nonneg(s: Seq<char>)
    requires
        forall|j: int| 0 <= j < s.len() ==> is_digit(#[trigger] s[j]),
    ensures
        digits_value(s) >= 0,
    decreases s.len(),
{
    if s.len() > 0 {
        lemma_digits_nonneg(s.drop_last());
        assert(is_digit(s[s.len() - 1]));
    }
}

/// Matches method and path against the route table. An unknown path is
/// `RouteNotFound`; a known path with a method that it does not take is
/// `MethodNotAllowed`.
pub fn route(method: Method, path: &str) -> (r: Result<Endpoint, ErrorKind>)
    ensures
        r == route_spec(method, path@),
{
    let n = path.unicode_len();
    let resource = if stands_at(path, 0, "/health") && n == 7 {
        proof {
            reveal_strlit("/health");
            assert(path@ =~= path@.subrange(0, 7));
        }
        Resource::Health
    } else if stands_at(path, 0, "/todo") && n == 5 {
        proof {
            reveal_strlit("/health");
            reveal_strlit("/todo");
            assert(path@ =~= path@.subrange(0, 5));
        }
        Resource::Todos
    } else if n > 6 && stands_at(path, 0, "/todo/") {
        proof {
            reveal_strlit("/health");
            reveal_strlit("/todo");
            reveal_strlit("/todo/");
        }
        assert(path@[1] == path@.subrange(0, 6)[1]);
        match parse_id(path, 6) {
            Some(id) => Resource::Todo(id),
            None => return Err(ErrorKind::RouteNotFound),
        }
    } else {
        proof {
            reveal_strlit("/health");
            reveal_strlit("/todo");
            reveal_strlit("/todo/");
            if path@ == "/health"@ {
                assert(path@.subrange(0, 7) =~= path@);
            }
            if path@ == "/todo"@ {
                assert(path@.subrange(0, 5) =~= path@);
            }
        }
        return Err(ErrorKind::RouteNotFound);
    };
    match (method, resource) {
        (Method::Get, Resource::Health) => Ok(Endpoint::Health),
        (Method::Get, Resource::Todos) => Ok(Endpoint::List),
        (Method::Post, Resource::Todos) => Ok(Endpoint::Create),
        (Method::Put, Resource::Todo(id)) => Ok(Endpoint::Update(id)),
        (Method::Delete, Resource::Todo(id)) => Ok(Endpoint::Delete(id)),
        _ => Err(ErrorKind::MethodNotAllowed),
    }
}

/// The value of a `done` query parameter: exactly `true` or `false`.
pub open spec fn done_spec(v: Seq<char>) -> Result<Option<bool>, ErrorKind> {
    if v == "true"@ {
        Ok(Some(true))
    } else if v == "false"@ {
        Ok(Some(false))
    } else {
        Err(ErrorKind::MalformedQuery)
    }
}

/// Reads the value of the `done` query parameter, if one was given.
pub fn parse_done(value: Option<&str>) -> (r: Result<Option<bool>, ErrorKind>)
    ensures
        value is None ==> r == Ok::<Option<bool>, ErrorKind>(None),
        value is Some ==> r == done_spec(value->0@),
{
    if value.is_none() {
        return Ok(None);
    }
    let v = value.unwrap();
    let n = v.unicode_len();
    let ghost vs = v@;
    proof {
        reveal_strlit("true");
        reveal_strlit("false");
    }
    if n == 4 && stands_at(v, 0, "true") {
        assert(v@ =~= v@.subrange(0, 4));
        Ok(Some(true))
    } else if n == 5 && stands_at(v, 0, "false") {
        assert(v@ =~= v@.subrange(0, 5));
        Ok(Some(false))
    } else {
        proof {
            if vs == "true"@ {
                assert(vs.subrange(0, 4) =~= vs);
            }
            if vs == "false"@ {
                assert(vs.subrange(0, 5) =~= vs);
            }
        }
        Err(ErrorKind::MalformedQuery)
    }
}

} // verus!
