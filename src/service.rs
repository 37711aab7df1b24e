use vstd::prelude::*;
use vstd::string::*;
use crate::model::{
    ServerConfig, ServerView, CreateServerRequest, UpdateServerRequest, Timestamp, created_view,
};
use crate::item::{Attr, attr_pairs};
use crate::store::{ServerTable, has_id, update_spec, delete_relation};

verus! {

/// Relies on uuid::Uuid::new_v4 and its Display impl, which writes the
/// hyphenated form: 32 hex digits and 4 hyphens.
#[verifier::external_body]
fn new_server_id() -> (r: String)
    ensures
        r@.len() == 36,
{
    uuid::Uuid::new_v4().to_string()
}

/// Relies on chrono::Utc::now and DateTime::timestamp_micros: the current time.
#[verifier::external_body]
fn current_time() -> (r: Timestamp) {
    Timestamp { micros: chrono::Utc::now().timestamp_micros() }
}

/// HTTP method of a request, as far as routing tells them apart.
#[derive(Clone, Copy, Debug, PartialEq, Eq, Structural)]
pub enum Method {
    Get,
    Post,
    Put,
    Delete,
    Other,
}

/// The operation that a request selects.
#[derive(Debug)]
pub enum Route {
    AddServer,
    ListServers,
    UpdateConfig(String),
    DeleteConfig(String),
    NotFound,
}

pub ghost enum RouteView {
    AddServer,
    ListServers,
    UpdateConfig(Seq<char>),
    DeleteConfig(Seq<char>),
    NotFound,
}

impl View for Route {
    type V = RouteView;

    open spec fn view(&self) -> RouteView {
        match self {
            Route::AddServer => RouteView::AddServer,
            Route::ListServers => RouteView::ListServers,
            Route::UpdateConfig(id) => RouteView::UpdateConfig(id@),
            Route::DeleteConfig(id) => RouteView::DeleteConfig(id@),
            Route::NotFound => RouteView::NotFound,
        }
    }
}

/// The path with its leading slashes removed.
pub open spec fn strip_slashes(s: Seq<char>) -> Seq<char>
    decreases s.len(),
{
    if s.len() > 0 && s[0] == '/' {
        strip_slashes(s.drop_first())
    } else {
        s
    }
}

/// The name of the collection segment.
pub open spec fn collection_segment() -> Seq<char> {
    seq!['s', 'e', 'r', 'v', 'e', 'r', 's']
}

/// The id in a path of the form `servers/<id>` where the id holds no slash.
pub open spec fn item_id(t: Seq<char>) -> Option<Seq<char>> {
    if t.len() >= 8 && t.subrange(0, 7) == collection_segment() && t[7] == '/' && !t.subrange(
        8,
        t.len() as int,
    ).contains('/') {
        Some(t.subrange(8, t.len() as int))
    } else {
        None
    }
}

/// Which operation a method and a path select.
pub open spec fn route_spec(m: Method, path: Seq<char>) -> RouteView {
    let t = strip_slashes(path);
    if t == collection_segment() {
        match m {
            Method::Post => RouteView::AddServer,
            Method::Get => RouteView::ListServers,
            _ => RouteView::NotFound,
        }
    } else {
        match item_id(t) {
            Some(id) => match m {
                Method::Put => RouteView::UpdateConfig(id),
                Method::Delete => RouteView::DeleteConfig(id),
                _ => RouteView::NotFound,
            },
            None => RouteView::NotFound,
        }
    }
}

proof fn lemma_strip_step(s: Seq<char>, k: int)
    requires
        0 <= k < s.len(),
        s[k] == '/',
    ensures
        strip_slashes(s.subrange(k, s.len() as int)) == strip_slashes(
            s.subrange(k + 1, s.len() as int),
        ),
{
    assert(s.subrange(k, s.len() as int).drop_first() =~= s.subrange(k + 1, s.len() as int));
}

/// Selects the operation for `method` on `path`: `servers` takes POST and GET,
/// `servers/<id>` takes PUT and DELETE, anything else is not found.
pub fn route(method: Method, path: &str) -> (r: Route)
    ensures
        r@ == route_spec(method, path@),
{
    let n = path.unicode_len();
    let mut k: usize = 0;
    assert(path@.subrange(0, n as int) =~= path@);
    while k < n && path.get_char(k) == '/'
        invariant
            k <= n,
            n == path@.len(),
            strip_slashes(path@) == strip_slashes(path@.subrange(k as int, n as int)),
        decreases n - k,
    {
        proof {
            lemma_strip_step(path@, k as int);
        }
        k = k + 1;
    }
    let t = path.substring_char(k, n);
    assert(strip_slashes(t@) == t@);
    assert(t@ == strip_slashes(path@));
    let tl = n - k;
    let servers = "servers";
    proof {
        reveal_strlit("servers");
    }
    assert(servers@ =~= collection_segment());
    if tl == 7 && String::from_str(t) == String::from_str(servers) {
        return match method {
            Method::Post => Route::AddServer,
            Method::Get => Route::ListServers,
            _ => Route::NotFound,
        };
    }
    if tl < 8 {
        return Route::NotFound;
    }
    if String::from_str(t.substring_char(0, 7)) != String::from_str(servers) || t.get_char(7)
        != '/' {
        return Route::NotFound;
    }
    let mut j: usize = 8;
    while j < tl
        invariant
            8 <= j <= tl,
            tl == t@.len(),
            forall|x: int| 8 <= x < j ==> t@[x] != '/',
            t@ == strip_slashes(path@),
        decreases tl - j,
    {
        if t.get_char(j) == '/' {
            assert(t@.subrange(8, tl as int)[j - 8] == '/');
            assert(t@.subrange(8, tl as int).contains('/'));
            return Route::NotFound;
        }
        j = j + 1;
    }
    assert forall|x: int| 0 <= x < t@.subrange(8, tl as int).len() implies t@.subrange(
        8,
        tl as int,
    )[x] != '/' by {
        assert(t@.subrange(8, tl as int)[x] == t@[x + 8]);
    }
    let id = String::from_str(t.substring_char(8, tl));
    match method {
        Method::Put => Route::UpdateConfig(id),
        Method::Delete => Route::DeleteConfig(id),
        _ => Route::NotFound,
    }
}

/// A request body as it arrived: absent, not text, text that does not parse, or parsed.
#[derive(Debug)]
pub enum Payload<T> {
    Empty,
    Unreadable,
    Malformed,
    Parsed(T),
}

/// The errors that the service reports to its callers.
#[derive(Clone, Copy, Debug, PartialEq, Eq, Structural)]
pub enum ApiError {
    BodyRequired,
    InvalidBody,
    FieldsRequired,
    InvalidJson,
    ServerNotFound,
    EndpointNotFound,
    AddFailed,
    ListFailed,
    CheckFailed,
    UpdateFailed,
    DeleteFailed,
}

pub open spec fn error_status(e: ApiError) -> u16 {
    match e {
        ApiError::BodyRequired | ApiError::InvalidBody | ApiError::FieldsRequired
        | ApiError::InvalidJson => 400,
        ApiError::ServerNotFound | ApiError::EndpointNotFound => 404,
        _ => 500,
    }
}

/// The text of each error.
pub open spec fn error_message(e: ApiError) -> Seq<char> {
    match e {
        ApiError::BodyRequired => "Request body is required"@,
        ApiError::InvalidBody => "Invalid request body"@,
        ApiError::FieldsRequired => "Server name and config path are required"@,
        ApiError::InvalidJson => "Invalid JSON format"@,
        ApiError::ServerNotFound => "Server not found"@,
        ApiError::EndpointNotFound => "Endpoint not found"@,
        ApiError::AddFailed => "Failed to add server"@,
        ApiError::ListFailed => "Failed to list servers"@,
        ApiError::CheckFailed => "Failed to check server"@,
        ApiError::UpdateFailed => "Failed to update server"@,
        ApiError::DeleteFailed => "Failed to delete server"@,
    }
}

impl ApiError {
    /// HTTP status: 400 for a bad body, 404 for an unknown id or route, 500 for a store failure.
    pub fn status(&self) -> (r: u16)
        ensures
            r == error_status(*self),
    {
        match self {
            ApiError::BodyRequired | ApiError::InvalidBody | ApiError::FieldsRequired
        | ApiError::InvalidJson => 400,
            ApiError::ServerNotFound | ApiError::EndpointNotFound => 404,
            _ => 500,
        }
    }

    /// The message sent in the `error` field.
    pub fn message(&self) -> (r: &'static str)
        ensures
            r@ == error_message(*self),
    {
        match self {
            ApiError::BodyRequired => "Request body is required",
            ApiError::InvalidBody => "Invalid request body",
            ApiError::FieldsRequired => "Server name and config path are required",
            ApiError::InvalidJson => "Invalid JSON format",
            ApiError::ServerNotFound => "Server not found",
            ApiError::EndpointNotFound => "Endpoint not found",
            ApiError::AddFailed => "Failed to add server",
            ApiError::ListFailed => "Failed to list servers",
            ApiError::CheckFailed => "Failed to check server",
            ApiError::UpdateFailed => "Failed to update server",
            ApiError::DeleteFailed => "Failed to delete server",
        }
    }
}

/// What an operation answers.
#[derive(Debug)]
pub enum ApiResponse {
    Created { server_id: String },
    Updated { server_id: String },
    Deleted { server_id: String },
    Listed(Vec<ServerConfig>),
    Failed(ApiError),
}

impl ApiResponse {
    /// HTTP status: 201 for a create, 200 for the other successes, the error's own otherwise.
    pub fn status(&self) -> (r: u16)
        ensures
            r == match self {
                ApiResponse::Created { .. } => 201u16,
                ApiResponse::Failed(e) => error_status(*e),
                _ => 200u16,
            },
    {
        match self {
            ApiResponse::Created { .. } => 201,
            ApiResponse::Failed(e) => e.status(),
            _ => 200,
        }
    }

    /// The `message` of a successful create, update or delete; empty otherwise.
    pub fn message(&self) -> (r: &'static str)
        ensures
            r@ == match self {
                ApiResponse::Created { .. } => "Server added successfully"@,
                ApiResponse::Updated { .. } => "Server updated successfully"@,
                ApiResponse::Deleted { .. } => "Server deleted successfully"@,
                _ => ""@,
            },
    {
        match self {
            ApiResponse::Created { .. } => "Server added successfully",
            ApiResponse::Updated { .. } => "Server updated successfully",
            ApiResponse::Deleted { .. } => "Server deleted successfully",
            _ => "",
        }
    }

    /// Number of records in a listing; zero for any other answer.
    pub fn count(&self) -> (r: usize)
        ensures
            r == match self {
                ApiResponse::Listed(v) => v@.len(),
                _ => 0,
            },
    {
        match self {
            ApiResponse::Listed(v) => v.len(),
            _ => 0,
        }
    }
}

/// The error that a body which is not a parsed request gets.
pub open spec fn payload_error<T>(p: Payload<T>) -> ApiError {
    match p {
        Payload::Empty => ApiError::BodyRequired,
        Payload::Unreadable => ApiError::InvalidBody,
        _ => ApiError::InvalidJson,
    }
}

/// The parsed request, or the error for a body that is missing or unusable.
pub fn payload_request<T>(p: Payload<T>) -> (r: Result<T, ApiError>)
    ensures
        match p {
            Payload::Parsed(req) => r == Ok::<T, ApiError>(req),
            _ => r == Err::<T, ApiError>(payload_error(p)),
        },
{
    match p {
        Payload::Empty => Err(ApiError::BodyRequired),
        Payload::Unreadable => Err(ApiError::InvalidBody),
        Payload::Malformed => Err(ApiError::InvalidJson),
        Payload::Parsed(req) => Ok(req),
    }
}

/// How many fresh ids a create draws before it gives up.
pub const ID_DRAWS: usize = 4;

/// No record has an id of the length that drawn ids have, so every drawn id is free.
pub open spec fn no_drawn_shape_ids(s: Seq<ServerView>) -> bool {
    forall|i: int| 0 <= i < s.len() ==> s[i].id.len() != 36
}

/// What a create answers and leaves in the table. A name or path that is
/// empty is refused; a store failure answers `AddFailed`; otherwise the record
/// is added under a 36-character id that no record held, created and updated
/// at one instant. `AddFailed` also comes when every drawn id was taken, which
/// can only happen where some record has an id of the drawn length.
pub open spec fn add_outcome(
    s: Seq<ServerView>,
    t: Seq<ServerView>,
    store_ok: bool,
    body: Payload<CreateServerRequest>,
    r: ApiResponse,
) -> bool {
    match body {
        Payload::Parsed(req) => if req.server_name@.len() == 0 || req.config_file_path@.len() == 0 {
            r == ApiResponse::Failed(ApiError::FieldsRequired) && t == s
        } else if !store_ok {
            r == ApiResponse::Failed(ApiError::AddFailed) && t == s
        } else {
            match r {
                ApiResponse::Created { server_id } => server_id@.len() == 36 && !has_id(
                    s,
                    server_id@,
                ) && exists|now: int| t == s.push(created_view(&req, server_id@, now)),
                ApiResponse::Failed(e) => e == ApiError::AddFailed && t == s && !no_drawn_shape_ids(
                    s,
                ),
                _ => false,
            }
        },
        _ => r == ApiResponse::Failed(payload_error(body)) && t == s,
    }
}

/// A listing holds every record of the table, in order; a store failure answers `ListFailed`.
pub open spec fn list_outcome(s: Seq<ServerView>, store_ok: bool, r: ApiResponse) -> bool {
    if store_ok {
        match r {
            ApiResponse::Listed(v) => v@.map_values(|c: ServerConfig| c@) == s,
            _ => false,
        }
    } else {
        r == ApiResponse::Failed(ApiError::ListFailed)
    }
}

/// The record with this id holds an update time before `now`, unless it is already the latest.
pub open spec fn later_than_record(s: Seq<ServerView>, id: Seq<char>, now: int) -> bool {
    forall|i: int| 0 <= i < s.len() && s[i].id == id && s[i].updated < i64::MAX ==> s[i].updated < now
}

/// What an update answers and leaves in the table: the body's error; a failed
/// existence check (`CheckFailed`); not found for an unknown id; otherwise the
/// record updated at an instant later than its previous update time.
pub open spec fn update_outcome(
    s: Seq<ServerView>,
    t: Seq<ServerView>,
    store_ok: bool,
    id: Seq<char>,
    body: Payload<UpdateServerRequest>,
    r: ApiResponse,
) -> bool {
    match body {
        Payload::Parsed(req) => if !store_ok {
            r == ApiResponse::Failed(ApiError::CheckFailed) && t == s
        } else if !has_id(s, id) {
            r == ApiResponse::Failed(ApiError::ServerNotFound) && t == s
        } else {
            match r {
                ApiResponse::Updated { server_id } => server_id@ == id && exists|now: int|
                    later_than_record(s, id, now) && t == update_spec(s, id, &req, now),
                _ => false,
            }
        },
        _ => r == ApiResponse::Failed(payload_error(body)) && t == s,
    }
}

/// A delete succeeds whether or not the id was present and echoes it; a store
/// failure answers `DeleteFailed`.
pub open spec fn delete_outcome(
    s: Seq<ServerView>,
    t: Seq<ServerView>,
    store_ok: bool,
    id: Seq<char>,
    r: ApiResponse,
) -> bool {
    if store_ok {
        &&& delete_relation(s, t, id)
        &&& match r {
            ApiResponse::Deleted { server_id } => server_id@ == id,
            _ => false,
        }
    } else {
        r == ApiResponse::Failed(ApiError::DeleteFailed) && t == s
    }
}

/// Draws ids until one is held by no record, at most `ID_DRAWS` times.
fn draw_fresh_id(table: &ServerTable, table_name: &String) -> (r: Result<Option<String>, ()>)
    ensures
        r is Err <==> table_name@ != table.name_view(),
        r == Ok::<Option<String>, ()>(None) ==> !no_drawn_shape_ids(table@),
        match r {
            Ok(Some(id)) => id@.len() == 36 && !has_id(table@, id@),
            _ => true,
        },
{
    let mut attempt: usize = 0;
    while attempt < ID_DRAWS
        invariant
            attempt <= ID_DRAWS,
            attempt > 0 ==> table_name@ == table.name_view(),
            attempt > 0 ==> !no_drawn_shape_ids(table@),
        decreases ID_DRAWS - attempt,
    {
        let id = new_server_id();
        match table.get_item(table_name, &id) {
            Err(_) => {
                return Err(());
            },
            Ok(Some(c)) => {
                assert(!no_drawn_shape_ids(table@)) by {
                    let k = choose|k: int|
                        0 <= k < table@.len() && table@[k] == c@ && c@.id == id@;
                    assert(table@[k].id.len() == 36);
                }
            },
            Ok(None) => {
                return Ok(Some(id));
            },
        }
        attempt = attempt + 1;
    }
    Ok(None)
}

/// Creates a record from the request body under a fresh id, created and
/// updated at the same moment, and answers with that id.
pub fn handle_add_server(
    table: &mut ServerTable,
    table_name: &String,
    body: Payload<CreateServerRequest>,
) -> (r: ApiResponse)
    requires
        old(table).wf(),
    ensures
        final(table).wf(),
        final(table).name_view() == old(table).name_view(),
        add_outcome(
            old(table)@,
            final(table)@,
            table_name@ == old(table).name_view(),
            body,
            r,
        ),
{
    let req = match payload_request(body) {
        Ok(req) => req,
        Err(e) => {
            return ApiResponse::Failed(e);
        },
    };
    if req.server_name.as_str().unicode_len() == 0 || req.config_file_path.as_str().unicode_len()
        == 0 {
        return ApiResponse::Failed(ApiError::FieldsRequired);
    }
    let ghost g = req;
    let server_id = match draw_fresh_id(table, table_name) {
        Ok(Some(id)) => id,
        _ => {
            return ApiResponse::Failed(ApiError::AddFailed);
        },
    };
    let now = current_time();
    let rec = ServerConfig::from_request(req, server_id.clone(), now);
    match table.put_item(table_name, rec) {
        Ok(_) => {
            assert(final(table)@ =~= old(table)@.push(
                created_view(&g, server_id@, now.micros as int),
            ));
            ApiResponse::Created { server_id }
        },
        Err(_) => ApiResponse::Failed(ApiError::AddFailed),
    }
}

/// Answers with every stored record; an empty table gives an empty listing.
pub fn handle_list_servers(table: &ServerTable, table_name: &String) -> (r: ApiResponse)
    ensures
        list_outcome(table@, table_name@ == table.name_view(), r),
{
    match table.scan(table_name) {
        Ok(v) => ApiResponse::Listed(v),
        Err(_) => ApiResponse::Failed(ApiError::ListFailed),
    }
}

/// An update time after `prev`: the clock reading `now` when it is later,
/// else one microsecond after `prev` (kept at `now` when `prev` is the latest time).
pub fn later_time(prev: Timestamp, now: Timestamp) -> (r: Timestamp)
    ensures
        r.micros == if now.micros > prev.micros {
            now.micros
        } else if prev.micros < i64::MAX {
            (prev.micros + 1) as i64
        } else {
            now.micros
        },
        prev.micros < i64::MAX ==> r.micros > prev.micros,
{
    if now.micros > prev.micros {
        now
    } else if prev.micros < i64::MAX {
        Timestamp { micros: prev.micros + 1 }
    } else {
        now
    }
}

/// Applies the fields present in the body to the record with this id and
/// refreshes its update time; an unknown id is not found and changes nothing.
pub fn handle_update_config(
    table: &mut ServerTable,
    table_name: &String,
    server_id: &String,
    body: Payload<UpdateServerRequest>,
) -> (r: ApiResponse)
    requires
        old(table).wf(),
    ensures
        final(table).wf(),
        final(table).name_view() == old(table).name_view(),
        update_outcome(
            old(table)@,
            final(table)@,
            table_name@ == old(table).name_view(),
            server_id@,
            body,
            r,
        ),
{
    let req = match payload_request(body) {
        Ok(req) => req,
        Err(e) => {
            return ApiResponse::Failed(e);
        },
    };
    let current = match table.get_item(table_name, server_id) {
        Err(_) => {
            return ApiResponse::Failed(ApiError::CheckFailed);
        },
        Ok(None) => {
            return ApiResponse::Failed(ApiError::ServerNotFound);
        },
        Ok(Some(c)) => c,
    };
    let now = later_time(current.updated_at, current_time());
    proof {
        let s = old(table)@;
        assert forall|i: int|
            0 <= i < s.len() && s[i].id == server_id@ && s[i].updated < i64::MAX implies s[i].updated
            < now.micros by {
            let k = choose|k: int| 0 <= k < s.len() && s[k] == current@ && current@.id == server_id@;
            assert(i == k);
        }
    }
    match table.update_item(table_name, server_id, &req, now) {
        Ok(_) => {
            assert(later_than_record(old(table)@, server_id@, now.micros as int));
            assert(final(table)@ == update_spec(old(table)@, server_id@, &req, now.micros as int));
            ApiResponse::Updated { server_id: server_id.clone() }
        },
        Err(_) => ApiResponse::Failed(ApiError::UpdateFailed),
    }
}

/// Removes the record with this id; an absent id is not an error.
pub fn handle_delete_config(table: &mut ServerTable, table_name: &String, server_id: &String) -> (r:
    ApiResponse)
    requires
        old(table).wf(),
    ensures
        final(table).wf(),
        final(table).name_view() == old(table).name_view(),
        delete_outcome(
            old(table)@,
            final(table)@,
            table_name@ == old(table).name_view(),
            server_id@,
            r,
        ),
{
    match table.delete_item(table_name, server_id) {
        Ok(_) => ApiResponse::Deleted { server_id: server_id.clone() },
        Err(_) => ApiResponse::Failed(ApiError::DeleteFailed),
    }
}

/// The fields a request body may carry; which are needed depends on the operation.
#[derive(Debug)]
pub struct RequestFields {
    pub server_name: Option<String>,
    pub config_file_path: Option<String>,
    pub description: Option<String>,
}

/// A body read as a create request: a name and a path are needed, else it is malformed.
pub open spec fn as_create(p: Payload<RequestFields>) -> Payload<CreateServerRequest> {
    match p {
        Payload::Empty => Payload::Empty,
        Payload::Unreadable => Payload::Unreadable,
        Payload::Malformed => Payload::Malformed,
        Payload::Parsed(f) => match (f.server_name, f.config_file_path) {
            (Some(n), Some(c)) => Payload::Parsed(
                CreateServerRequest { server_name: n, config_file_path: c, description: f.description },
            ),
            _ => Payload::Malformed,
        },
    }
}

/// A body read as an update request: the name, if any, is ignored.
pub open spec fn as_update(p: Payload<RequestFields>) -> Payload<UpdateServerRequest> {
    match p {
        Payload::Empty => Payload::Empty,
        Payload::Unreadable => Payload::Unreadable,
        Payload::Malformed => Payload::Malformed,
        Payload::Parsed(f) => Payload::Parsed(
            UpdateServerRequest { config_file_path: f.config_file_path, description: f.description },
        ),
    }
}

/// Reads a body as a create request.
pub fn create_payload(p: Payload<RequestFields>) -> (r: Payload<CreateServerRequest>)
    ensures
        r == as_create(p),
{
    match p {
        Payload::Empty => Payload::Empty,
        Payload::Unreadable => Payload::Unreadable,
        Payload::Malformed => Payload::Malformed,
        Payload::Parsed(f) => match (f.server_name, f.config_file_path) {
            (Some(n), Some(c)) => Payload::Parsed(
                CreateServerRequest { server_name: n, config_file_path: c, description: f.description },
            ),
            _ => Payload::Malformed,
        },
    }
}

/// Reads a body as an update request.
pub fn update_payload(p: Payload<RequestFields>) -> (r: Payload<UpdateServerRequest>)
    ensures
        r == as_update(p),
{
    match p {
        Payload::Empty => Payload::Empty,
        Payload::Unreadable => Payload::Unreadable,
        Payload::Malformed => Payload::Malformed,
        Payload::Parsed(f) => Payload::Parsed(
            UpdateServerRequest { config_file_path: f.config_file_path, description: f.description },
        ),
    }
}

/// An answer as sent: the operation's response and the headers added to it.
#[derive(Debug)]
pub struct HttpAnswer {
    pub response: ApiResponse,
    pub headers: Vec<Attr>,
}

/// The table name in use: the configured one, or `homelab-servers`.
pub open spec fn table_name_spec(configured: Option<String>) -> Seq<char> {
    match configured {
        Some(n) => n@,
        None => "homelab-servers"@,
    }
}

/// Serves one request against the table named by `configured` (or the default
/// name): routes it by method and path, runs the operation it selects, and
/// adds the cross-origin headers; any other request is endpoint-not-found.
pub fn function_handler(
    table: &mut ServerTable,
    configured: Option<String>,
    method: Method,
    path: &str,
    body: Payload<RequestFields>,
) -> (r: HttpAnswer)
    requires
        old(table).wf(),
    ensures
        final(table).wf(),
        final(table).name_view() == old(table).name_view(),
        attr_pairs(r.headers@) == cors_spec(),
        ({
            let ok = table_name_spec(configured) == old(table).name_view();
            match route_spec(method, path@) {
                RouteView::AddServer => add_outcome(
                    old(table)@,
                    final(table)@,
                    ok,
                    as_create(body),
                    r.response,
                ),
                RouteView::ListServers => list_outcome(old(table)@, ok, r.response)
                    && final(table)@ == old(table)@,
                RouteView::UpdateConfig(id) => update_outcome(
                    old(table)@,
                    final(table)@,
                    ok,
                    id,
                    as_update(body),
                    r.response,
                ),
                RouteView::DeleteConfig(id) => delete_outcome(
                    old(table)@,
                    final(table)@,
                    ok,
                    id,
                    r.response,
                ),
                RouteView::NotFound => r.response == ApiResponse::Failed(ApiError::EndpointNotFound)
                    && final(table)@ == old(table)@,
            }
        }),
{
    let name = table_name(configured);
    let response = match route(method, path) {
        Route::AddServer => handle_add_server(table, &name, create_payload(body)),
        Route::ListServers => handle_list_servers(table, &name),
        Route::UpdateConfig(id) => handle_update_config(table, &name, &id, update_payload(body)),
        Route::DeleteConfig(id) => handle_delete_config(table, &name, &id),
        Route::NotFound => ApiResponse::Failed(ApiError::EndpointNotFound),
    };
    HttpAnswer { response, headers: cors_headers() }
}

/// The cross-origin headers sent with every answer.
pub open spec fn cors_spec() -> Seq<(Seq<char>, Seq<char>)> {
    seq![
        ("Access-Control-Allow-Origin"@, "*"@),
        ("Access-Control-Allow-Methods"@, "GET, POST, PUT, DELETE, OPTIONS"@),
        ("Access-Control-Allow-Headers"@, "Content-Type, Authorization"@),
    ]
}

/// The cross-origin headers: any origin, the four methods and OPTIONS, and the
/// Content-Type and Authorization headers.
pub fn cors_headers() -> (r: Vec<Attr>)
    ensures
        attr_pairs(r@) == cors_spec(),
{
    let mut r: Vec<Attr> = Vec::new();
    r.push(Attr { name: String::from_str("Access-Control-Allow-Origin"), value: String::from_str("*") });
    r.push(
        Attr {
            name: String::from_str("Access-Control-Allow-Methods"),
            value: String::from_str("GET, POST, PUT, DELETE, OPTIONS"),
        },
    );
    r.push(
        Attr {
            name: String::from_str("Access-Control-Allow-Headers"),
            value: String::from_str("Content-Type, Authorization"),
        },
    );
    assert(attr_pairs(r@) =~= cors_spec());
    r
}

/// The table the service works on: the configured name, or `homelab-servers` when none is set.
pub fn table_name(configured: Option<String>) -> (r: String)
    ensures
        r@ == table_name_spec(configured),
{
    match configured {
        Some(n) => n,
        None => String::from_str("homelab-servers"),
    }
}

} // verus!
