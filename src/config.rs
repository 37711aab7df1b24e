use vstd::prelude::*;
use vstd::string::*;
use crate::model::{opt_view, copy_opt};

verus! {

/// Settings of the command-line client.
#[derive(Debug)]
pub struct AppConfig {
    pub api_url: Option<String>,
    pub default_timeout_seconds: Option<u64>,
    pub default_region: Option<String>,
}

/// A server entry declared in a configuration file.
#[derive(Debug)]
pub struct ServerConfig {
    pub name: String,
    pub config_file_path: String,
    pub description: Option<String>,
}

/// The contents of a configuration file.
#[derive(Debug)]
pub struct HomelabConfigFile {
    pub servers: Vec<ServerConfig>,
    pub api_url: Option<String>,
    pub timeout_seconds: Option<u64>,
    pub region: Option<String>,
}

/// Endpoint used when neither the command line nor a file names one.
pub open spec fn default_api_url() -> Seq<char> {
    "https://api.example.com"@
}

impl Default for AppConfig {
    /// No endpoint, a 30 second timeout and the `us-east-1` region.
    fn default() -> (r: AppConfig)
        ensures
            r.api_url.is_none(),
            r.default_timeout_seconds == Some(30u64),
            opt_view(r.default_region) == Some("us-east-1"@),
    {
        AppConfig {
            api_url: None,
            default_timeout_seconds: Some(30),
            default_region: Some(String::from_str("us-east-1")),
        }
    }
}

impl AppConfig {
    /// The client settings that a configuration file gives.
    pub fn from_file(file: &HomelabConfigFile) -> (r: AppConfig)
        ensures
            opt_view(r.api_url) == opt_view(file.api_url),
            r.default_timeout_seconds == file.timeout_seconds,
            opt_view(r.default_region) == opt_view(file.region),
    {
        AppConfig {
            api_url: copy_opt(&file.api_url),
            default_timeout_seconds: file.timeout_seconds,
            default_region: copy_opt(&file.region),
        }
    }
}

/// The endpoint: the command-line flag first, then the configuration, then the default.
pub fn resolve_api_url(flag: Option<String>, config: &AppConfig) -> (r: String)
    ensures
        r@ == match flag {
            Some(u) => u@,
            None => match config.api_url {
                Some(u) => u@,
                None => default_api_url(),
            },
        },
{
    match flag {
        Some(u) => u,
        None => match &config.api_url {
            Some(u) => u.clone(),
            None => String::from_str("https://api.example.com"),
        },
    }
}

/// `rel` appended to `base` as a path, with one separator between them.
pub open spec fn joined(base: Seq<char>, rel: Seq<char>) -> Seq<char> {
    if base.len() == 0 || base.last() == '/' {
        base + rel
    } else {
        base + seq!['/'] + rel
    }
}

/// `rel` appended to `base` as a path.
pub fn join_path(base: &str, rel: &str) -> (r: String)
    ensures
        r@ == joined(base@, rel@),
{
    let mut r = String::from_str(base);
    let n = base.unicode_len();
    if n > 0 && base.get_char(n - 1) != '/' {
        r.append("/");
        proof {
            reveal_strlit("/");
        }
    }
    r.append(rel);
    r
}

/// Where a configuration file is looked for, in order, given the home directory.
pub fn config_candidates(home: &str) -> (r: Vec<String>)
    ensures
        r@.len() == 3,
        r@[0]@ == joined(home@, ".config/homelab/config.yaml"@),
        r@[1]@ == joined(home@, ".homelab.yaml"@),
        r@[2]@ == "./homelab.yaml"@,
{
    let mut r: Vec<String> = Vec::new();
    r.push(join_path(home, ".config/homelab/config.yaml"));
    r.push(join_path(home, ".homelab.yaml"));
    r.push(String::from_str("./homelab.yaml"));
    r
}

/// Index of the first candidate that exists, if any.
pub fn first_existing(exists: &Vec<bool>) -> (r: Option<usize>)
    ensures
        match r {
            Some(i) => i < exists@.len() && exists@[i as int] && forall|k: int|
                0 <= k < i ==> !exists@[k],
            None => forall|k: int| 0 <= k < exists@.len() ==> !exists@[k],
        },
{
    let mut i: usize = 0;
    while i < exists.len()
        invariant
            i <= exists@.len(),
            forall|k: int| 0 <= k < i ==> !exists@[k],
        decreases exists@.len() - i,
    {
        if exists[i] {
            return Some(i);
        }
        i = i + 1;
    }
    None
}

} // verus!
