use homelab::item::{get_attr, new_item, project_item, project_items, update_plan, Attr};
use homelab::model::{CreateServerRequest, ServerConfig, Timestamp, UpdateServerRequest};
use homelab::service::{function_handler, ApiError, ApiResponse, Method, Payload, RequestFields};
use homelab::store::ServerTable;

fn pairs(v: &[Attr]) -> Vec<(String, String)> {
    v.iter().map(|a| (a.name.clone(), a.value.clone())).collect()
}

fn p(a: &str, b: &str) -> (String, String) {
    (a.to_string(), b.to_string())
}

#[test]
fn new_item_holds_all_fields() {
    let item = new_item(
        CreateServerRequest {
            server_name: "db1".to_string(),
            config_file_path: "/etc/nixos/db1.nix".to_string(),
            description: Some("primary".to_string()),
        },
        "id-1".to_string(),
        "2023-11-14T22:13:20+00:00".to_string(),
    );
    assert_eq!(pairs(&item), vec![
        p("server_id", "id-1"),
        p("server_name", "db1"),
        p("config_file_path", "/etc/nixos/db1.nix"),
        p("created_at", "2023-11-14T22:13:20+00:00"),
        p("updated_at", "2023-11-14T22:13:20+00:00"),
        p("description", "primary"),
    ]);
}

#[test]
fn item_round_trips_through_projection() {
    let item = new_item(
        CreateServerRequest {
            server_name: "db1".to_string(),
            config_file_path: "/etc/nixos/db1.nix".to_string(),
            description: None,
        },
        "id-9".to_string(),
        "T".to_string(),
    );
    let s = project_item(&item);
    assert_eq!(s.server_id.as_deref(), Some("id-9"));
    assert_eq!(s.server_name.as_deref(), Some("db1"));
    assert_eq!(s.config_file_path.as_deref(), Some("/etc/nixos/db1.nix"));
    assert_eq!(s.description, None);
    assert_eq!(s.created_at.as_deref(), Some("T"));
    assert_eq!(s.updated_at.as_deref(), Some("T"));
}

#[test]
fn partial_items_are_tolerated() {
    let items = vec![
        vec![Attr { name: "server_name".to_string(), value: "x".to_string() }],
        Vec::new(),
    ];
    let out = project_items(&items);
    assert_eq!(out.len(), 2);
    assert_eq!(out[0].server_name.as_deref(), Some("x"));
    assert_eq!(out[0].server_id, None);
    assert_eq!(out[1].server_name, None);
    assert!(project_items(&Vec::new()).is_empty());
}

#[test]
fn lookup_takes_first_match() {
    let item = vec![
        Attr { name: "k".to_string(), value: "1".to_string() },
        Attr { name: "k".to_string(), value: "2".to_string() },
    ];
    assert_eq!(get_attr(&item, "k").as_deref(), Some("1"));
    assert_eq!(get_attr(&item, "z"), None);
}

#[test]
fn to_item_writes_rfc3339_times() {
    let rec = ServerConfig::from_request(
        CreateServerRequest {
            server_name: "n".to_string(),
            config_file_path: "/p".to_string(),
            description: None,
        },
        "id".to_string(),
        Timestamp { micros: 1_700_000_000_000_000 },
    );
    let item = rec.to_item().unwrap();
    assert_eq!(get_attr(&item, "created_at").as_deref(), Some("2023-11-14T22:13:20+00:00"));
    assert_eq!(get_attr(&item, "updated_at").as_deref(), Some("2023-11-14T22:13:20+00:00"));
    assert_eq!(get_attr(&item, "description"), None);
    assert_eq!(item.len(), 5);
}

#[test]
fn update_plan_with_both_fields() {
    let plan = update_plan(
        &UpdateServerRequest {
            config_file_path: Some("/new".to_string()),
            description: Some("d".to_string()),
        },
        "NOW".to_string(),
    );
    assert_eq!(
        plan.expression,
        "SET #config_file_path = :config_file_path, #description = :description, #updated_at = :updated_at"
    );
    assert_eq!(pairs(&plan.names), vec![
        p("#config_file_path", "config_file_path"),
        p("#description", "description"),
        p("#updated_at", "updated_at"),
    ]);
    assert_eq!(pairs(&plan.values), vec![
        p(":config_file_path", "/new"),
        p(":description", "d"),
        p(":updated_at", "NOW"),
    ]);
}

#[test]
fn update_plan_with_no_fields_sets_only_time() {
    let plan = update_plan(
        &UpdateServerRequest { config_file_path: None, description: None },
        "NOW".to_string(),
    );
    assert_eq!(plan.expression, "SET #updated_at = :updated_at");
    assert_eq!(pairs(&plan.values), vec![p(":updated_at", "NOW")]);
}

#[test]
fn handler_dispatches_requests() {
    let mut table = ServerTable::new("homelab-servers".to_string());
    let fields = RequestFields {
        server_name: Some("db1".to_string()),
        config_file_path: Some("/etc/nixos/db1.nix".to_string()),
        description: None,
    };
    let r = function_handler(&mut table, None, Method::Post, "/servers", Payload::Parsed(fields));
    assert_eq!(r.headers.len(), 3);
    assert_eq!(r.headers[0].name, "Access-Control-Allow-Origin");
    assert_eq!(r.headers[0].value, "*");
    let id = match r.response {
        ApiResponse::Created { server_id } => server_id,
        other => panic!("unexpected answer {:?}", other),
    };
    let r = function_handler(&mut table, None, Method::Get, "/servers", Payload::Empty);
    assert_eq!(r.response.count(), 1);
    let path = format!("/servers/{}", id);
    let upd = RequestFields {
        server_name: None,
        config_file_path: Some("/etc/nixos/other.nix".to_string()),
        description: None,
    };
    let r = function_handler(&mut table, None, Method::Put, &path, Payload::Parsed(upd));
    assert_eq!(r.response.status(), 200);
    let r = function_handler(&mut table, None, Method::Delete, &path, Payload::Empty);
    assert_eq!(r.response.status(), 200);
    assert_eq!(table.len(), 0);
    let r = function_handler(&mut table, None, Method::Get, "/nowhere", Payload::Empty);
    assert!(matches!(r.response, ApiResponse::Failed(ApiError::EndpointNotFound)));
    assert_eq!(r.response.status(), 404);
    assert_eq!(pairs(&r.headers).len(), 3);
    let r = function_handler(
        &mut table,
        Some("other".to_string()),
        Method::Get,
        "/servers",
        Payload::Empty,
    );
    assert!(matches!(r.response, ApiResponse::Failed(ApiError::ListFailed)));
}

#[test]
fn handler_rejects_create_without_name() {
    let mut table = ServerTable::new("homelab-servers".to_string());
    let fields = RequestFields {
        server_name: None,
        config_file_path: Some("/p".to_string()),
        description: None,
    };
    let r = function_handler(&mut table, None, Method::Post, "/servers", Payload::Parsed(fields));
    assert!(matches!(r.response, ApiResponse::Failed(ApiError::InvalidJson)));
    assert_eq!(r.response.status(), 400);
    assert_eq!(table.len(), 0);
}

#[test]
fn cors_headers_allow_any_origin() {
    let h = homelab::service::cors_headers();
    assert_eq!(pairs(&h), vec![
        p("Access-Control-Allow-Origin", "*"),
        p("Access-Control-Allow-Methods", "GET, POST, PUT, DELETE, OPTIONS"),
        p("Access-Control-Allow-Headers", "Content-Type, Authorization"),
    ]);
}

#[test]
fn success_messages() {
    let id = || "x".to_string();
    assert_eq!(ApiResponse::Created { server_id: id() }.message(), "Server added successfully");
    assert_eq!(ApiResponse::Updated { server_id: id() }.message(), "Server updated successfully");
    assert_eq!(ApiResponse::Deleted { server_id: id() }.message(), "Server deleted successfully");
    assert_eq!(ApiResponse::Failed(ApiError::ListFailed).message(), "");
    assert_eq!(ApiResponse::Failed(ApiError::ListFailed).status(), 500);
}

#[test]
fn table_name_defaults() {
    assert_eq!(homelab::service::table_name(None), "homelab-servers");
    assert_eq!(homelab::service::table_name(Some("t".to_string())), "t");
}
