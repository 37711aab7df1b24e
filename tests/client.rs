use homelab::cli::{
    create_request, server_url, servers_url, update_request, CliError, ListedServer, ServerRow,
};
use homelab::config::{
    config_candidates, first_existing, join_path, resolve_api_url, AppConfig, HomelabConfigFile,
};

#[test]
fn default_app_config() {
    let c = AppConfig::default();
    assert_eq!(c.api_url, None);
    assert_eq!(c.default_timeout_seconds, Some(30));
    assert_eq!(c.default_region.as_deref(), Some("us-east-1"));
}

#[test]
fn app_config_from_file_copies_settings() {
    let file = HomelabConfigFile {
        servers: Vec::new(),
        api_url: Some("https://x".to_string()),
        timeout_seconds: Some(5),
        region: None,
    };
    let c = AppConfig::from_file(&file);
    assert_eq!(c.api_url.as_deref(), Some("https://x"));
    assert_eq!(c.default_timeout_seconds, Some(5));
    assert_eq!(c.default_region, None);
}

#[test]
fn api_url_precedence() {
    let mut c = AppConfig::default();
    assert_eq!(resolve_api_url(None, &c), "https://api.example.com");
    c.api_url = Some("https://file".to_string());
    assert_eq!(resolve_api_url(None, &c), "https://file");
    assert_eq!(resolve_api_url(Some("https://flag".to_string()), &c), "https://flag");
}

#[test]
fn candidate_paths_in_order() {
    let c = config_candidates("/home/u");
    assert_eq!(c, vec![
        "/home/u/.config/homelab/config.yaml".to_string(),
        "/home/u/.homelab.yaml".to_string(),
        "./homelab.yaml".to_string(),
    ]);
    assert_eq!(join_path("/root/", "a"), "/root/a");
    assert_eq!(join_path("", "a"), "a");
}

#[test]
fn first_existing_picks_earliest() {
    assert_eq!(first_existing(&vec![false, true, true]), Some(1));
    assert_eq!(first_existing(&vec![false, false]), None);
    assert_eq!(first_existing(&vec![]), None);
}

#[test]
fn update_request_needs_a_field() {
    assert_eq!(update_request(None, None).err(), Some(CliError::NoUpdates));
    let r = update_request(None, Some("d".to_string())).unwrap();
    assert_eq!(r.config_file_path, None);
    assert_eq!(r.description.as_deref(), Some("d"));
    let r = update_request(Some("/p".to_string()), None).unwrap();
    assert_eq!(r.config_file_path.as_deref(), Some("/p"));
}

#[test]
fn create_request_fields() {
    let r = create_request("db1".to_string(), "/etc/nixos/db1.nix".to_string(), None);
    assert_eq!(r.server_name, "db1");
    assert_eq!(r.config_file_path, "/etc/nixos/db1.nix");
    assert_eq!(r.description, None);
}

#[test]
fn urls() {
    assert_eq!(servers_url("https://api"), "https://api/servers");
    assert_eq!(server_url("https://api", "abc"), "https://api/servers/abc");
}

#[test]
fn rows_fill_missing_fields() {
    let row = ServerRow::from_listed(&ListedServer {
        server_id: Some("1".to_string()),
        server_name: None,
        config_file_path: Some("/p".to_string()),
        description: None,
        created_at: None,
    });
    assert_eq!(row.id, "1");
    assert_eq!(row.name, "N/A");
    assert_eq!(row.config_path, "/p");
    assert_eq!(row.description, "");
    assert_eq!(row.created_at, "N/A");
}
