use vstd::prelude::*;
use crate::model::{CreateServerRequest, UpdateServerRequest, ServerView, created_view};
use crate::item::{item_spec, lookup};
use crate::service::{no_drawn_shape_ids, later_than_record, add_outcome, update_outcome, delete_outcome, list_outcome, ApiError, ApiResponse, Payload};
use crate::store::{ids_distinct, has_id, put_spec, update_spec, delete_relation};

verus! {

/// Writing a record keeps the ids of a table distinct.
pub proof fn lemma_put_keeps_ids_distinct(s: Seq<ServerView>, r: ServerView)
    requires
        ids_distinct(s),
    ensures
        ids_distinct(put_spec(s, r)),
{
    let t = put_spec(s, r);
    if !has_id(s, r.id) {
        assert forall|i: int, j: int|
            0 <= i < t.len() && 0 <= j < t.len() && t[i].id == t[j].id implies i == j by {
            if i < s.len() && j == s.len() {
                assert(s[i].id == r.id);
            }
            if j < s.len() && i == s.len() {
                assert(s[j].id == r.id);
            }
        }
    } else {
        let w = choose|w: int| 0 <= w < s.len() && s[w].id == r.id;
        assert forall|i: int, j: int|
            0 <= i < t.len() && 0 <= j < t.len() && t[i].id == t[j].id implies i == j by {
            if s[i].id == r.id {
                assert(i == w);
            }
            if s[j].id == r.id {
                assert(j == w);
            }
        }
    }
}

/// After a record is created under an id that no record held, a listing holds
/// exactly one record with that id, and it has the requested name, path and
/// description, and equal creation and update times; the table grew by one.
pub proof fn lemma_create_then_list(
    s: Seq<ServerView>,
    req: &CreateServerRequest,
    id: Seq<char>,
    now: int,
)
    requires
        ids_distinct(s),
        !has_id(s, id),
    ensures
        ({
            let t = s.push(created_view(req, id, now));
            &&& t.len() == s.len() + 1
            &&& ids_distinct(t)
            &&& exists|i: int|
                0 <= i < t.len() && t[i].id == id && t[i].name == req.server_name@ && t[i].path
                    == req.config_file_path@ && t[i].description == crate::model::opt_view(
                    req.description,
                ) && t[i].created == t[i].updated && (forall|j: int|
                    0 <= j < t.len() && t[j].id == id ==> j == i)
        }),
{
    let r = created_view(req, id, now);
    lemma_put_keeps_ids_distinct(s, r);
    assert(put_spec(s, r) == s.push(r));
    let t = s.push(r);
    assert(t[s.len() as int] == r);
}

/// Reading back a created record gives every field supplied at creation,
/// together with the generated id and timestamps.
pub proof fn lemma_round_trip(s: Seq<ServerView>, req: &CreateServerRequest, id: Seq<char>, now: int)
    requires
        !has_id(s, id),
    ensures
        ({
            let t = s.push(created_view(req, id, now));
            forall|i: int| 0 <= i < t.len() && t[i].id == id ==> t[i] == created_view(req, id, now)
        }),
{
    let r = created_view(req, id, now);
    let t = s.push(r);
    assert forall|i: int| 0 <= i < t.len() && t[i].id == id implies t[i] == r by {
        if i < s.len() {
            assert(s[i].id == id);
        }
    }
}

/// An update changes only the fields it carries: an absent path or description
/// is kept, the creation time never changes, the update time becomes `now`
/// (so it strictly increases when `now` is later), and other records are untouched.
pub proof fn lemma_update_changes_only_targeted_fields(
    s: Seq<ServerView>,
    id: Seq<char>,
    req: &UpdateServerRequest,
    now: int,
)
    requires
        ids_distinct(s),
    ensures
        ({
            let t = update_spec(s, id, req, now);
            &&& t.len() == s.len()
            &&& ids_distinct(t)
            &&& forall|i: int|
                0 <= i < s.len() ==> {
                    &&& t[i].id == s[i].id
                    &&& t[i].name == s[i].name
                    &&& t[i].created == s[i].created
                    &&& s[i].id != id ==> t[i] == s[i]
                    &&& s[i].id == id ==> {
                        &&& t[i].updated == now
                        &&& (s[i].updated < now ==> s[i].updated < t[i].updated)
                        &&& (req.config_file_path.is_none() ==> t[i].path == s[i].path)
                        &&& (req.description.is_none() ==> t[i].description == s[i].description)
                    }
                }
        }),
{
    let t = update_spec(s, id, req, now);
    assert forall|i: int, j: int|
        0 <= i < t.len() && 0 <= j < t.len() && t[i].id == t[j].id implies i == j by {
        assert(t[i].id == s[i].id);
        assert(t[j].id == s[j].id);
    }
}

/// An update of an id that no record holds creates nothing and changes nothing.
pub proof fn lemma_update_absent_creates_nothing(
    s: Seq<ServerView>,
    id: Seq<char>,
    req: &UpdateServerRequest,
    now: int,
)
    requires
        !has_id(s, id),
    ensures
        update_spec(s, id, req, now) == s,
        !has_id(update_spec(s, id, req, now), id),
{
    assert(update_spec(s, id, req, now) =~= s);
}

/// After a delete no record holds the id, and deleting it once more changes nothing.
pub proof fn lemma_delete_then_list(
    s: Seq<ServerView>,
    t: Seq<ServerView>,
    u: Seq<ServerView>,
    id: Seq<char>,
)
    requires
        delete_relation(s, t, id),
        delete_relation(t, u, id),
    ensures
        forall|i: int| 0 <= i < t.len() ==> t[i].id != id,
        u == t,
{
}

/// Projecting a freshly built item into the wire shape gives back every field
/// supplied at creation, the generated id and both written times.
pub proof fn lemma_item_round_trip(
    id: Seq<char>,
    name: Seq<char>,
    path: Seq<char>,
    description: Option<Seq<char>>,
    created: Seq<char>,
    updated: Seq<char>,
)
    ensures
        ({
            let s = item_spec(id, name, path, description, created, updated);
            &&& lookup(s, "server_id"@) == Some(id)
            &&& lookup(s, "server_name"@) == Some(name)
            &&& lookup(s, "config_file_path"@) == Some(path)
            &&& lookup(s, "description"@) == description
            &&& lookup(s, "created_at"@) == Some(created)
            &&& lookup(s, "updated_at"@) == Some(updated)
        }),
{
    reveal_strlit("server_id");
    reveal_strlit("server_name");
    reveal_strlit("config_file_path");
    reveal_strlit("description");
    reveal_strlit("created_at");
    reveal_strlit("updated_at");
    let s = item_spec(id, name, path, description, created, updated);
    assert("server_id"@ != "server_name"@) by {
        assert("server_id"@.len() != "server_name"@.len());
    }
    assert("created_at"@ != "updated_at"@) by {
        assert("created_at"@[0] != "updated_at"@[0]);
    }
    assert("description"@ != "server_name"@) by {
        assert("description"@[0] != "server_name"@[0]);
    }
    reveal_with_fuel(lookup, 7);
    assert(s[0].0 == "server_id"@);
    assert(s.drop_first()[0].0 == "server_name"@);
    assert(s.drop_first().drop_first()[0].0 == "config_file_path"@);
    assert(s.drop_first().drop_first().drop_first()[0].0 == "created_at"@);
    assert(s.drop_first().drop_first().drop_first().drop_first()[0].0 == "updated_at"@);
    let t = s.drop_first().drop_first().drop_first().drop_first().drop_first();
    match description {
        Some(d) => {
            assert(t[0] == ("description"@, d));
            assert(t.drop_first().len() == 0);
        },
        None => {
            assert(t.len() == 0);
        },
    }
}

/// A successful create answers with a non-empty id that no record held before
/// and that a following listing holds exactly once, with the requested fields
/// and equal creation and update times; the table grew by one.
pub proof fn lemma_add_server_then_list(
    s: Seq<ServerView>,
    t: Seq<ServerView>,
    req: CreateServerRequest,
    r: ApiResponse,
)
    requires
        ids_distinct(s),
        add_outcome(s, t, true, Payload::Parsed(req), r),
    ensures
        match r {
            ApiResponse::Created { server_id } => {
                &&& server_id@.len() > 0
                &&& !has_id(s, server_id@)
                &&& t.len() == s.len() + 1
                &&& exists|i: int|
                    0 <= i < t.len() && t[i].id == server_id@ && t[i].name == req.server_name@
                        && t[i].path == req.config_file_path@ && t[i].description
                        == crate::model::opt_view(req.description) && t[i].created
                        == t[i].updated && (forall|j: int|
                        0 <= j < t.len() && t[j].id == server_id@ ==> j == i)
            },
            _ => t == s,
        },
{
    match r {
        ApiResponse::Created { server_id } => {
            let now = choose|now: int| t == s.push(created_view(&req, server_id@, now));
            lemma_create_then_list(s, &req, server_id@, now);
        },
        _ => {},
    }
}

/// A create whose name or path is empty is refused as a client error and stores nothing.
pub proof fn lemma_add_needs_name_and_path(
    s: Seq<ServerView>,
    t: Seq<ServerView>,
    ok: bool,
    req: CreateServerRequest,
    r: ApiResponse,
)
    requires
        req.server_name@.len() == 0 || req.config_file_path@.len() == 0,
        add_outcome(s, t, ok, Payload::Parsed(req), r),
    ensures
        r == ApiResponse::Failed(ApiError::FieldsRequired),
        t == s,
{
}

/// An update of an unknown id answers not-found and leaves the table as it was.
pub proof fn lemma_update_unknown_id(
    s: Seq<ServerView>,
    t: Seq<ServerView>,
    id: Seq<char>,
    req: UpdateServerRequest,
    r: ApiResponse,
)
    requires
        !has_id(s, id),
        update_outcome(s, t, true, id, Payload::Parsed(req), r),
    ensures
        r == ApiResponse::Failed(ApiError::ServerNotFound),
        t == s,
        !has_id(t, id),
{
}

/// A successful update moves the record's update time strictly forward and
/// keeps its creation time, and absent fields keep their values.
pub proof fn lemma_update_moves_time_forward(
    s: Seq<ServerView>,
    t: Seq<ServerView>,
    id: Seq<char>,
    req: UpdateServerRequest,
    r: ApiResponse,
)
    requires
        ids_distinct(s),
        update_outcome(s, t, true, id, Payload::Parsed(req), r),
        r is Updated,
    ensures
        t.len() == s.len(),
        forall|i: int|
            0 <= i < s.len() && s[i].id == id && s[i].updated < i64::MAX ==> {
                &&& s[i].updated < #[trigger] t[i].updated
                &&& t[i].created == s[i].created
                &&& (req.config_file_path.is_none() ==> t[i].path == s[i].path)
                &&& (req.description.is_none() ==> t[i].description == s[i].description)
            },
{
    let now = choose|now: int| later_than_record(s, id, now) && t == update_spec(s, id, &req, now);
    lemma_update_changes_only_targeted_fields(s, id, &req, now);
}

/// A delete answers success whether or not the id was present, and the id is
/// gone from the table afterwards.
pub proof fn lemma_delete_answer(s: Seq<ServerView>, t: Seq<ServerView>, id: Seq<char>, r: ApiResponse)
    requires
        delete_outcome(s, t, true, id, r),
    ensures
        r is Deleted,
        forall|i: int| 0 <= i < t.len() ==> t[i].id != id,
        !has_id(s, id) ==> t == s,
{
}

/// Listing an empty table answers an empty collection with a count of zero.
pub proof fn lemma_list_empty(r: ApiResponse)
    requires
        list_outcome(Seq::<ServerView>::empty(), true, r),
    ensures
        match r {
            ApiResponse::Listed(v) => v@.len() == 0,
            _ => false,
        },
{
    match r {
        ApiResponse::Listed(v) => {
            assert(v@.map_values(|c: crate::model::ServerConfig| c@).len() == v@.len());
        },
        _ => {},
    }
}

/// A valid create on an empty, working table always succeeds: it answers a
/// non-empty id, and the table then holds exactly that one record, with the
/// requested name and path.
pub proof fn lemma_add_to_empty_table(t: Seq<ServerView>, req: CreateServerRequest, r: ApiResponse)
    requires
        req.server_name@.len() > 0,
        req.config_file_path@.len() > 0,
        add_outcome(Seq::<ServerView>::empty(), t, true, Payload::Parsed(req), r),
    ensures
        match r {
            ApiResponse::Created { server_id } => {
                &&& server_id@.len() > 0
                &&& t.len() == 1
                &&& t[0].id == server_id@
                &&& t[0].name == req.server_name@
                &&& t[0].path == req.config_file_path@
            },
            _ => false,
        },
{
    assert(no_drawn_shape_ids(Seq::<ServerView>::empty()));
    match r {
        ApiResponse::Created { server_id } => {
            let now = choose|now: int|
                t == Seq::<ServerView>::empty().push(created_view(&req, server_id@, now));
            assert(t[0] == created_view(&req, server_id@, now));
        },
        _ => {},
    }
}

} // verus!
