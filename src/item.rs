use vstd::prelude::*;
use vstd::string::*;
use crate::model::{opt_view, copy_opt, ServerConfig, CreateServerRequest, UpdateServerRequest};

verus! {

/// What chrono writes for a time given in microseconds since the epoch, in
/// RFC 3339 form; `None` where chrono cannot represent that time.
pub uninterp spec fn rfc3339_of(micros: int) -> Option<Seq<char>>;

/// Relies on chrono's DateTime::from_timestamp_micros and DateTime::to_rfc3339.
#[verifier::external_body]
fn format_rfc3339(micros: i64) -> (r: Option<String>)
    ensures
        opt_view(r) == rfc3339_of(micros as int),
{
    chrono::DateTime::from_timestamp_micros(micros).map(|t| t.to_rfc3339())
}

/// One string attribute of a stored item.
#[derive(Debug)]
pub struct Attr {
    pub name: String,
    pub value: String,
}

/// The (name, value) pairs of an attribute list.
pub open spec fn attr_pairs(v: Seq<Attr>) -> Seq<(Seq<char>, Seq<char>)> {
    v.map_values(|a: Attr| (a.name@, a.value@))
}

/// The value of the first attribute with this name.
pub open spec fn lookup(s: Seq<(Seq<char>, Seq<char>)>, key: Seq<char>) -> Option<Seq<char>>
    decreases s.len(),
{
    if s.len() == 0 {
        None
    } else if s[0].0 == key {
        Some(s[0].1)
    } else {
        lookup(s.drop_first(), key)
    }
}

/// The attributes stored for a record whose times are written as `created` and `updated`.
pub open spec fn item_spec(
    id: Seq<char>,
    name: Seq<char>,
    path: Seq<char>,
    description: Option<Seq<char>>,
    created: Seq<char>,
    updated: Seq<char>,
) -> Seq<(Seq<char>, Seq<char>)> {
    let base = seq![
        ("server_id"@, id),
        ("server_name"@, name),
        ("config_file_path"@, path),
        ("created_at"@, created),
        ("updated_at"@, updated),
    ];
    match description {
        Some(d) => base.push(("description"@, d)),
        None => base,
    }
}

fn attr(name: &str, value: String) -> (r: Attr)
    ensures
        r.name@ == name@,
        r.value@ == value@,
{
    Attr { name: String::from_str(name), value }
}

/// The attributes of a record, with both times written as `created` and `updated`.
pub fn build_item(
    id: String,
    name: String,
    path: String,
    description: Option<String>,
    created: String,
    updated: String,
) -> (r: Vec<Attr>)
    ensures
        attr_pairs(r@) == item_spec(id@, name@, path@, opt_view(description), created@, updated@),
{
    let ghost d = opt_view(description);
    let ghost spec_item = item_spec(id@, name@, path@, d, created@, updated@);
    let mut item: Vec<Attr> = Vec::new();
    item.push(attr("server_id", id));
    item.push(attr("server_name", name));
    item.push(attr("config_file_path", path));
    item.push(attr("created_at", created));
    item.push(attr("updated_at", updated));
    match description {
        Some(desc) => {
            item.push(attr("description", desc));
        },
        None => {},
    }
    assert(attr_pairs(item@) =~= spec_item);
    item
}

/// The attributes for a new record made from a create request, created and
/// updated at the same instant, written as `now`.
pub fn new_item(req: CreateServerRequest, server_id: String, now: String) -> (r: Vec<Attr>)
    ensures
        attr_pairs(r@) == item_spec(
            server_id@,
            req.server_name@,
            req.config_file_path@,
            opt_view(req.description),
            now@,
            now@,
        ),
{
    build_item(
        server_id,
        req.server_name,
        req.config_file_path,
        req.description,
        now.clone(),
        now,
    )
}

impl ServerConfig {
    /// The stored attributes of this record, its times in RFC 3339 form; `None`
    /// where a time cannot be written.
    pub fn to_item(&self) -> (r: Option<Vec<Attr>>)
        ensures
            match (rfc3339_of(self.created_at.micros as int), rfc3339_of(
                self.updated_at.micros as int,
            )) {
                (Some(c), Some(u)) => r is Some && attr_pairs(r->0@) == item_spec(
                    self@.id,
                    self@.name,
                    self@.path,
                    self@.description,
                    c,
                    u,
                ),
                _ => r is None,
            },
    {
        let created = format_rfc3339(self.created_at.micros);
        let updated = format_rfc3339(self.updated_at.micros);
        match (created, updated) {
            (Some(c), Some(u)) => Some(
                build_item(
                    self.server_id.clone(),
                    self.server_name.clone(),
                    self.config_file_path.clone(),
                    copy_opt(&self.description),
                    c,
                    u,
                ),
            ),
            _ => None,
        }
    }
}

proof fn lemma_lookup_step(s: Seq<(Seq<char>, Seq<char>)>, k: int, key: Seq<char>)
    requires
        0 <= k < s.len(),
        s[k].0 != key,
    ensures
        lookup(s.subrange(k, s.len() as int), key) == lookup(s.subrange(k + 1, s.len() as int), key),
{
    assert(s.subrange(k, s.len() as int).drop_first() =~= s.subrange(k + 1, s.len() as int));
}

/// The value of the first attribute named `key`.
pub fn get_attr(item: &Vec<Attr>, key: &str) -> (r: Option<String>)
    ensures
        opt_view(r) == lookup(attr_pairs(item@), key@),
{
    let ghost s = attr_pairs(item@);
    let mut i: usize = 0;
    assert(s.subrange(0, s.len() as int) =~= s);
    while i < item.len()
        invariant
            i <= item@.len(),
            s == attr_pairs(item@),
            lookup(s, key@) == lookup(s.subrange(i as int, s.len() as int), key@),
        decreases item@.len() - i,
    {
        if String::from_str(key) == item[i].name {
            assert(s.subrange(i as int, s.len() as int)[0] == s[i as int]);
            return Some(item[i].value.clone());
        }
        proof {
            lemma_lookup_step(s, i as int, key@);
        }
        i = i + 1;
    }
    None
}

/// A stored record as the listing sends it: each field that the item lacks is left out.
#[derive(Debug)]
pub struct StoredServer {
    pub server_id: Option<String>,
    pub server_name: Option<String>,
    pub config_file_path: Option<String>,
    pub description: Option<String>,
    pub created_at: Option<String>,
    pub updated_at: Option<String>,
}

/// The wire form of a stored item.
pub fn project_item(item: &Vec<Attr>) -> (r: StoredServer)
    ensures
        opt_view(r.server_id) == lookup(attr_pairs(item@), "server_id"@),
        opt_view(r.server_name) == lookup(attr_pairs(item@), "server_name"@),
        opt_view(r.config_file_path) == lookup(attr_pairs(item@), "config_file_path"@),
        opt_view(r.description) == lookup(attr_pairs(item@), "description"@),
        opt_view(r.created_at) == lookup(attr_pairs(item@), "created_at"@),
        opt_view(r.updated_at) == lookup(attr_pairs(item@), "updated_at"@),
{
    StoredServer {
        server_id: get_attr(item, "server_id"),
        server_name: get_attr(item, "server_name"),
        config_file_path: get_attr(item, "config_file_path"),
        description: get_attr(item, "description"),
        created_at: get_attr(item, "created_at"),
        updated_at: get_attr(item, "updated_at"),
    }
}

/// The wire form of every stored item, in order.
pub fn project_items(items: &Vec<Vec<Attr>>) -> (r: Vec<StoredServer>)
    ensures
        r@.len() == items@.len(),
        forall|k: int|
            0 <= k < r@.len() ==> opt_view(#[trigger] r@[k].server_id) == lookup(
                attr_pairs(items@[k]@),
                "server_id"@,
            ) && opt_view(r@[k].server_name) == lookup(attr_pairs(items@[k]@), "server_name"@)
                && opt_view(r@[k].config_file_path) == lookup(
                attr_pairs(items@[k]@),
                "config_file_path"@,
            ) && opt_view(r@[k].description) == lookup(attr_pairs(items@[k]@), "description"@)
                && opt_view(r@[k].created_at) == lookup(attr_pairs(items@[k]@), "created_at"@)
                && opt_view(r@[k].updated_at) == lookup(attr_pairs(items@[k]@), "updated_at"@),
{
    let mut out: Vec<StoredServer> = Vec::new();
    let mut i: usize = 0;
    while i < items.len()
        invariant
            i <= items@.len(),
            out@.len() == i,
            forall|k: int|
                0 <= k < i ==> opt_view(#[trigger] out@[k].server_id) == lookup(
                    attr_pairs(items@[k]@),
                    "server_id"@,
                ) && opt_view(out@[k].server_name) == lookup(
                    attr_pairs(items@[k]@),
                    "server_name"@,
                ) && opt_view(out@[k].config_file_path) == lookup(
                    attr_pairs(items@[k]@),
                    "config_file_path"@,
                ) && opt_view(out@[k].description) == lookup(
                    attr_pairs(items@[k]@),
                    "description"@,
                ) && opt_view(out@[k].created_at) == lookup(attr_pairs(items@[k]@), "created_at"@)
                    && opt_view(out@[k].updated_at) == lookup(
                    attr_pairs(items@[k]@),
                    "updated_at"@,
                ),
        decreases items@.len() - i,
    {
        out.push(project_item(&items[i]));
        i = i + 1;
    }
    out
}

/// The store's partial update: an expression over name placeholders (`#field`)
/// and value placeholders (`:field`), with what each placeholder stands for.
#[derive(Debug)]
pub struct UpdatePlan {
    pub expression: String,
    pub names: Vec<Attr>,
    pub values: Vec<Attr>,
}

/// The update expression: `SET`, then one clause for each field present, then the update time.
pub open spec fn plan_expression(req: &UpdateServerRequest) -> Seq<char> {
    "SET "@ + (if req.config_file_path is Some {
        "#config_file_path = :config_file_path, "@
    } else {
        Seq::<char>::empty()
    }) + (if req.description is Some {
        "#description = :description, "@
    } else {
        Seq::<char>::empty()
    }) + "#updated_at = :updated_at"@
}

/// The name placeholders and the attributes they stand for.
pub open spec fn plan_names(req: &UpdateServerRequest) -> Seq<(Seq<char>, Seq<char>)> {
    (if req.config_file_path is Some {
        seq![("#config_file_path"@, "config_file_path"@)]
    } else {
        Seq::empty()
    }) + (if req.description is Some {
        seq![("#description"@, "description"@)]
    } else {
        Seq::empty()
    }) + seq![("#updated_at"@, "updated_at"@)]
}

/// The value placeholders and the values they stand for.
pub open spec fn plan_values(req: &UpdateServerRequest, now: Seq<char>) -> Seq<(Seq<char>, Seq<char>)> {
    (match req.config_file_path {
        Some(p) => seq![(":config_file_path"@, p@)],
        None => Seq::empty(),
    }) + (match req.description {
        Some(d) => seq![(":description"@, d@)],
        None => Seq::empty(),
    }) + seq![(":updated_at"@, now)]
}

/// The partial update for `req`: it sets only the fields present, and always
/// sets the update time to `now`.
pub fn update_plan(req: &UpdateServerRequest, now: String) -> (r: UpdatePlan)
    ensures
        r.expression@ == plan_expression(req),
        attr_pairs(r.names@) == plan_names(req),
        attr_pairs(r.values@) == plan_values(req, now@),
{
    let mut expression = String::from_str("SET ");
    let mut names: Vec<Attr> = Vec::new();
    let mut values: Vec<Attr> = Vec::new();
    match &req.config_file_path {
        Some(p) => {
            expression.append("#config_file_path = :config_file_path, ");
            names.push(attr("#config_file_path", String::from_str("config_file_path")));
            values.push(attr(":config_file_path", p.clone()));
        },
        None => {},
    }
    match &req.description {
        Some(d) => {
            expression.append("#description = :description, ");
            names.push(attr("#description", String::from_str("description")));
            values.push(attr(":description", d.clone()));
        },
        None => {},
    }
    expression.append("#updated_at = :updated_at");
    names.push(attr("#updated_at", String::from_str("updated_at")));
    values.push(attr(":updated_at", now));
    assert(expression@ =~= plan_expression(req));
    assert(attr_pairs(names@) =~= plan_names(req));
    assert(attr_pairs(values@) =~= plan_values(req, now@));
    UpdatePlan { expression, names, values }
}

} // verus!
