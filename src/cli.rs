use vstd::prelude::*;
use vstd::string::*;
use crate::model::{opt_view, UpdateServerRequest, CreateServerRequest};

verus! {

/// Parsed command line of the client.
#[derive(Debug)]
pub struct Cli {
    pub command: Commands,
    pub api_url: Option<String>,
    pub config: Option<String>,
}

/// The client's subcommands, one per service operation.
#[derive(Debug)]
#[allow(inconsistent_fields)]
pub enum Commands {
    Add { server: String, config_path: String, description: Option<String> },
    Update { id: String, config_path: Option<String>, description: Option<String> },
    Delete { id: String },
    List,
}

/// Errors the client reports before it sends anything.
#[derive(Clone, Copy, Debug, PartialEq, Eq, Structural)]
pub enum CliError {
    NoUpdates,
}

/// The text of each client error.
pub open spec fn cli_error_message(e: CliError) -> Seq<char> {
    match e {
        CliError::NoUpdates => "No updates provided. Use --config-path or --description to update."@,
    }
}

impl CliError {
    /// The message shown for this error.
    pub fn message(&self) -> (r: &'static str)
        ensures
            r@ == cli_error_message(*self),
    {
        match self {
            CliError::NoUpdates => "No updates provided. Use --config-path or --description to update.",
        }
    }
}

/// The body of a create request for the `add` command.
pub fn create_request(server: String, config_path: String, description: Option<String>) -> (r:
    CreateServerRequest)
    ensures
        r.server_name@ == server@,
        r.config_file_path@ == config_path@,
        opt_view(r.description) == opt_view(description),
{
    CreateServerRequest { server_name: server, config_file_path: config_path, description }
}

/// The body of an update request with only the fields given; at least one is needed.
pub fn update_request(config_path: Option<String>, description: Option<String>) -> (r: Result<
    UpdateServerRequest,
    CliError,
>)
    ensures
        config_path.is_none() && description.is_none() <==> r == Err::<
            UpdateServerRequest,
            CliError,
        >(CliError::NoUpdates),
        r is Ok ==> opt_view(r->Ok_0.config_file_path) == opt_view(config_path) && opt_view(
            r->Ok_0.description,
        ) == opt_view(description),
{
    if config_path.is_none() && description.is_none() {
        return Err(CliError::NoUpdates);
    }
    Ok(UpdateServerRequest { config_file_path: config_path, description })
}

/// URL of the server collection.
pub fn servers_url(api_url: &str) -> (r: String)
    ensures
        r@ == api_url@ + "/servers"@,
{
    let mut r = String::from_str(api_url);
    r.append("/servers");
    r
}

/// URL of one server record.
pub fn server_url(api_url: &str, id: &str) -> (r: String)
    ensures
        r@ == api_url@ + "/servers/"@ + id@,
{
    let mut r = String::from_str(api_url);
    r.append("/servers/");
    r.append(id);
    r
}

/// A record as a listing returns it: any field may be missing.
#[derive(Debug)]
pub struct ListedServer {
    pub server_id: Option<String>,
    pub server_name: Option<String>,
    pub config_file_path: Option<String>,
    pub description: Option<String>,
    pub created_at: Option<String>,
}

/// One row of the listing table.
#[derive(Debug)]
pub struct ServerRow {
    pub id: String,
    pub name: String,
    pub config_path: String,
    pub description: String,
    pub created_at: String,
}

/// The value, or `d` when it is missing.
pub open spec fn or_text(o: Option<String>, d: Seq<char>) -> Seq<char> {
    match o {
        Some(s) => s@,
        None => d,
    }
}

fn text_or(o: &Option<String>, d: &str) -> (r: String)
    ensures
        r@ == or_text(*o, d@),
{
    match o {
        Some(s) => s.clone(),
        None => String::from_str(d),
    }
}

impl ServerRow {
    /// The row for a listed record: a missing field shows `N/A`, a missing description is blank.
    pub fn from_listed(s: &ListedServer) -> (r: ServerRow)
        ensures
            r.id@ == or_text(s.server_id, "N/A"@),
            r.name@ == or_text(s.server_name, "N/A"@),
            r.config_path@ == or_text(s.config_file_path, "N/A"@),
            r.description@ == or_text(s.description, ""@),
            r.created_at@ == or_text(s.created_at, "N/A"@),
    {
        ServerRow {
            id: text_or(&s.server_id, "N/A"),
            name: text_or(&s.server_name, "N/A"),
            config_path: text_or(&s.config_file_path, "N/A"),
            description: text_or(&s.description, ""),
            created_at: text_or(&s.created_at, "N/A"),
        }
    }
}

} // verus!
