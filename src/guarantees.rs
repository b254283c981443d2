use vstd::prelude::*;
use crate::item::Row;
use crate::reply::{error_view, BodyView, ErrorKind, ResponseView};
use crate::handler::{healthy_view, serve};
use crate::storage::{execute, has_id, index_of, select, store_wf, RequestView, Store};

verus! {

/// Whether a reply lists a row with this id.
pub open spec fn lists_id(r: ResponseView, id: int) -> bool {
    r.body matches BodyView::Items(rs) && has_id(rs, id)
}

/// Every request keeps the backend's invariant.
pub proof fn lemma_execute_keeps_wf(s: Store, q: RequestView)
    requires
        store_wf(s),
    ensures
        store_wf(execute(s, q).0),
{
    if s.up {
        match q {
            RequestView::Update(id, name, checked) => {
                if has_id(s.rows, id) && name.len() > 0 {
                    let t = execute(s, q).0;
                    assert(t.rows.len() == s.rows.len());
                    assert forall|i: int| 0 <= i < t.rows.len() implies t.rows[i].id == s.rows[i].id by {}
                    assert forall|i: int, j: int| 0 <= i < j < t.rows.len() implies t.rows[i].id < t.rows[j].id by {
                        assert(t.rows[i].id == s.rows[i].id);
                        assert(t.rows[j].id == s.rows[j].id);
                    }
                }
            },
            RequestView::Delete(id) => {
                if has_id(s.rows, id) {
                    let k = index_of(s.rows, id);
                    let t = execute(s, q).0;
                    assert forall|i: int| 0 <= i < t.rows.len() implies #[trigger] t.rows[i] == s.rows[if i < k { i } else { i + 1 }] by {}
                    assert forall|i: int, j: int| 0 <= i < j < t.rows.len() implies t.rows[i].id < t.rows[j].id by {
                        assert(t.rows[i] == s.rows[if i < k { i } else { i + 1 }]);
                        assert(t.rows[j] == s.rows[if j < k { j } else { j + 1 }]);
                    }
                }
            },
            _ => {},
        }
    }
}

/// Creating an item answers `201` with a row that has the next id, the given
/// name and `checked == false`; listing afterwards returns that row exactly
/// once.
pub proof fn lemma_create_then_list(s: Store, name: Seq<char>)
    requires
        store_wf(s),
        s.up,
        name.len() > 0,
        s.next_id <= i32::MAX,
    ensures
        ({
            let (s1, created) = serve(s, RequestView::Create(name));
            let row = Row { id: s.next_id, name, checked: false };
            let listed = serve(s1, RequestView::List(None)).1;
            &&& created.status == 201
            &&& created.body == BodyView::Item(row)
            &&& listed.status == 200
            &&& listed.body matches BodyView::Items(rs) && {
                &&& rs.contains(row)
                &&& forall|i: int, j: int|
                    0 <= i < rs.len() && 0 <= j < rs.len() && (#[trigger] rs[i]).id == row.id
                        && (#[trigger] rs[j]).id == row.id ==> i == j
            }
        }),
{
    let s1 = execute(s, RequestView::Create(name)).0;
    let row = Row { id: s.next_id, name, checked: false };
    let n = s.rows.len() as int;
    assert(s1.rows[n] == row);
    assert forall|j: int| 0 <= j < s1.rows.len() && (#[trigger] s1.rows[j]).id == row.id implies j == n by {
        if j < n {
            assert(s1.rows[j] == s.rows[j]);
        }
    }
    assert(select(s1.rows, None)[n] == row);
    assert(s1.rows.contains(row));
}

/// A new item is listed under `done=false` and not under `done=true`.
pub proof fn lemma_created_is_not_done(s: Store, name: Seq<char>)
    requires
        store_wf(s),
        s.up,
        name.len() > 0,
        s.next_id <= i32::MAX,
    ensures
        ({
            let s1 = serve(s, RequestView::Create(name)).0;
            &&& lists_id(serve(s1, RequestView::List(Some(false))).1, s.next_id)
            &&& !lists_id(serve(s1, RequestView::List(Some(true))).1, s.next_id)
        }),
{
    let s1 = execute(s, RequestView::Create(name)).0;
    let row = Row { id: s.next_id, name, checked: false };
    let n = s.rows.len() as int;
    assert(s1.rows[n] == row);
    let f = select(s1.rows, Some(false));
    let t = select(s1.rows, Some(true));
    s1.rows.lemma_filter_contains(|r: Row| r.checked == false, n);
    assert(f.contains(row));
    let i = choose|i: int| 0 <= i < f.len() && f[i] == row;
    assert(f[i].id == s.next_id);
    if has_id(t, s.next_id) {
        let i = choose|i: int| 0 <= i < t.len() && (#[trigger] t[i]).id == s.next_id;
        s1.rows.lemma_filter_pred(|r: Row| r.checked == true, i);
        assert(t[i].checked == true);
        s1.rows.lemma_filter_contains_rev(|r: Row| r.checked == true, t[i]);
        assert(s1.rows.contains(t[i]));
        let j = choose|j: int| 0 <= j < s1.rows.len() && s1.rows[j] == t[i];
        if j < n {
            assert(s1.rows[j] == s.rows[j]);
        }
    }
}

/// A listing filtered by `done` holds an existing item exactly when the
/// item's flag equals `done`.
pub proof fn lemma_listing_by_flag(s: Store, id: int, done: bool)
    requires
        store_wf(s),
        s.up,
        has_id(s.rows, id),
    ensures
        lists_id(serve(s, RequestView::List(Some(done))).1, id) <==> s.rows[index_of(s.rows, id)].checked == done,
{
    let k = index_of(s.rows, id);
    let t = select(s.rows, Some(done));
    if s.rows[k].checked == done {
        s.rows.lemma_filter_contains(|r: Row| r.checked == done, k);
        let i = choose|i: int| 0 <= i < t.len() && t[i] == s.rows[k];
        assert(t[i].id == id);
    }
    if has_id(t, id) {
        let i = choose|i: int| 0 <= i < t.len() && (#[trigger] t[i]).id == id;
        s.rows.lemma_filter_pred(|r: Row| r.checked == done, i);
        s.rows.lemma_filter_contains_rev(|r: Row| r.checked == done, t[i]);
        let j = choose|j: int| 0 <= j < s.rows.len() && s.rows[j] == t[i];
        if j < k {
            assert(s.rows[j].id < s.rows[k].id);
        } else if j > k {
            assert(s.rows[k].id < s.rows[j].id);
        }
    }
}

/// Updating an id that no row has answers not-found and changes nothing.
pub proof fn lemma_update_missing(s: Store, id: int, name: Seq<char>, checked: bool)
    requires
        s.up,
        !has_id(s.rows, id),
    ensures
        serve(s, RequestView::Update(id, name, checked)) == (s, error_view(ErrorKind::NotFound)),
        serve(s, RequestView::Update(id, name, checked)).1.status == 404,
{
}

/// Deleting an existing item removes it; deleting the same id again answers
/// not-found.
pub proof fn lemma_delete_twice(s: Store, id: int)
    requires
        store_wf(s),
        s.up,
        has_id(s.rows, id),
    ensures
        ({
            let (s1, first) = serve(s, RequestView::Delete(id));
            let (s2, second) = serve(s1, RequestView::Delete(id));
            &&& first.status == 200
            &&& !has_id(s1.rows, id)
            &&& second.status == 404
            &&& s2 == s1
        }),
{
    let k = index_of(s.rows, id);
    let s1 = execute(s, RequestView::Delete(id)).0;
    if has_id(s1.rows, id) {
        let i = choose|i: int| 0 <= i < s1.rows.len() && (#[trigger] s1.rows[i]).id == id;
        if i < k {
            assert(s1.rows[i] == s.rows[i]);
        } else {
            assert(s1.rows[i] == s.rows[i + 1]);
        }
    }
}

/// A creation with an empty name is refused with a client or server error
/// and adds no row.
pub proof fn lemma_create_empty_name(s: Store, name: Seq<char>)
    requires
        name.len() == 0,
    ensures
        ({
            let (s1, r) = serve(s, RequestView::Create(name));
            &&& r.status == 400 || r.status == 500
            &&& s1.rows == s.rows
        }),
{
}

/// The health probe answers `200` exactly when the backend can be reached,
/// and a server error otherwise.
pub proof fn lemma_health(s: Store)
    ensures
        serve(s, RequestView::Health).1.status == 200 <==> s.up,
        s.up ==> serve(s, RequestView::Health).1 == healthy_view(),
        !s.up ==> serve(s, RequestView::Health).1.status >= 500,
{
}

/// After an item is updated to a name and `checked == true`, listing under
/// `done=true` returns it with that name.
pub proof fn lemma_update_then_list_done(s: Store, id: int, name: Seq<char>)
    requires
        store_wf(s),
        s.up,
        has_id(s.rows, id),
        name.len() > 0,
    ensures
        ({
            let s1 = serve(s, RequestView::Update(id, name, true)).0;
            serve(s1, RequestView::List(Some(true))).1.body matches BodyView::Items(rs)
                && rs.contains(Row { id, name, checked: true })
        }),
{
    let s1 = execute(s, RequestView::Update(id, name, true)).0;
    let k = index_of(s.rows, id);
    let row = Row { id, name, checked: true };
    assert(s1.rows[k] == row);
    s1.rows.lemma_filter_contains(|r: Row| r.checked == true, k);
}

} // verus!
