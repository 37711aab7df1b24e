use vstd::prelude::*;

verus! {

/// A point in time, in microseconds since the Unix epoch (UTC).
#[derive(Clone, Copy, Debug, PartialEq, Eq, Structural)]
pub struct Timestamp {
    pub micros: i64,
}

/// Abstract view of an optional string.
pub open spec fn opt_view(o: Option<String>) -> Option<Seq<char>> {
    match o {
        Some(s) => Some(s@),
        None => None,
    }
}

/// Copies an optional string, keeping its contents.
pub fn copy_opt(o: &Option<String>) -> (r: Option<String>)
    ensures
        opt_view(r) == opt_view(*o),
{
    match o {
        Some(s) => Some(s.clone()),
        None => None,
    }
}

/// One stored server configuration record.
#[derive(Debug)]
pub struct ServerConfig {
    pub server_id: String,
    pub server_name: String,
    pub config_file_path: String,
    pub description: Option<String>,
    pub created_at: Timestamp,
    pub updated_at: Timestamp,
}

/// Mathematical content of a record.
pub ghost struct ServerView {
    pub id: Seq<char>,
    pub name: Seq<char>,
    pub path: Seq<char>,
    pub description: Option<Seq<char>>,
    pub created: int,
    pub updated: int,
}

impl View for ServerConfig {
    type V = ServerView;

    open spec fn view(&self) -> ServerView {
        ServerView {
            id: self.server_id@,
            name: self.server_name@,
            path: self.config_file_path@,
            description: opt_view(self.description),
            created: self.created_at.micros as int,
            updated: self.updated_at.micros as int,
        }
    }
}

/// Body of a create request.
#[derive(Debug)]
pub struct CreateServerRequest {
    pub server_name: String,
    pub config_file_path: String,
    pub description: Option<String>,
}

/// Body of an update request: only the fields present are changed.
#[derive(Debug)]
pub struct UpdateServerRequest {
    pub config_file_path: Option<String>,
    pub description: Option<String>,
}

/// The record that a create request yields, with its id and creation time.
pub open spec fn created_view(req: &CreateServerRequest, id: Seq<char>, now: int) -> ServerView {
    ServerView {
        id: id,
        name: req.server_name@,
        path: req.config_file_path@,
        description: opt_view(req.description),
        created: now,
        updated: now,
    }
}

/// A record after an update at time `now`: absent fields keep their value.
pub open spec fn updated_view(r: ServerView, req: &UpdateServerRequest, now: int) -> ServerView {
    ServerView {
        path: match req.config_file_path {
            Some(p) => p@,
            None => r.path,
        },
        description: match req.description {
            Some(d) => Some(d@),
            None => r.description,
        },
        updated: now,
        ..r
    }
}

impl ServerConfig {
    /// A fresh record for `req`, created and last updated at `now`.
    pub fn from_request(req: CreateServerRequest, server_id: String, now: Timestamp) -> (r:
        ServerConfig)
        ensures
            r@ == created_view(&req, server_id@, now.micros as int),
    {
        ServerConfig {
            server_id,
            server_name: req.server_name,
            config_file_path: req.config_file_path,
            description: req.description,
            created_at: now,
            updated_at: now,
        }
    }

    /// A copy of this record with the same contents.
    pub fn duplicate(&self) -> (r: ServerConfig)
        ensures
            r@ == self@,
    {
        ServerConfig {
            server_id: self.server_id.clone(),
            server_name: self.server_name.clone(),
            config_file_path: self.config_file_path.clone(),
            description: copy_opt(&self.description),
            created_at: self.created_at,
            updated_at: self.updated_at,
        }
    }

    /// Applies the fields present in `req` and sets the update time to `now`.
    pub fn apply_update(&mut self, req: &UpdateServerRequest, now: Timestamp)
        ensures
            final(self)@ == updated_view(old(self)@, req, now.micros as int),
    {
        match &req.config_file_path {
            Some(p) => {
                self.config_file_path = p.clone();
            },
            None => {},
        }
        match &req.description {
            Some(d) => {
                self.description = Some(d.clone());
            },
            None => {},
        }
        self.updated_at = now;
    }
}

} // verus!
