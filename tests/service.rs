use homelab::model::{CreateServerRequest, ServerConfig, Timestamp, UpdateServerRequest};
use homelab::service::{
    handle_add_server, handle_delete_config, later_time, handle_list_servers, handle_update_config,
    payload_request, route, ApiError, ApiResponse, Method, Payload, Route,
};
use homelab::store::ServerTable;

fn name() -> String {
    "homelab-servers".to_string()
}

fn create(name: &str, path: &str, description: Option<&str>) -> Payload<CreateServerRequest> {
    Payload::Parsed(CreateServerRequest {
        server_name: name.to_string(),
        config_file_path: path.to_string(),
        description: description.map(|d| d.to_string()),
    })
}

fn listed(table: &ServerTable) -> Vec<ServerConfig> {
    match handle_list_servers(table, &name()) {
        ApiResponse::Listed(v) => v,
        other => panic!("unexpected answer {:?}", other),
    }
}

fn created_id(r: ApiResponse) -> String {
    match r {
        ApiResponse::Created { server_id } => server_id,
        other => panic!("unexpected answer {:?}", other),
    }
}

#[test]
fn create_db1_then_list_has_one_entry() {
    let mut table = ServerTable::new(name());
    let r = handle_add_server(&mut table, &name(), create("db1", "/etc/nixos/db1.nix", None));
    assert_eq!(r.status(), 201);
    let id = created_id(r);
    assert!(!id.is_empty());
    let servers = listed(&table);
    assert_eq!(servers.len(), 1);
    assert_eq!(servers[0].server_name, "db1");
    assert_eq!(servers[0].server_id, id);
}

#[test]
fn create_then_list_fields_match() {
    let mut table = ServerTable::new(name());
    handle_add_server(&mut table, &name(), create("web", "/etc/nixos/web.nix", None));
    let id = created_id(handle_add_server(&mut table, &name(),
        create("db", "/etc/nixos/db.nix", Some("database")),
    ));
    let servers = listed(&table);
    let matching: Vec<&ServerConfig> = servers.iter().filter(|s| s.server_id == id).collect();
    assert_eq!(matching.len(), 1);
    let rec = matching[0];
    assert_eq!(rec.server_name, "db");
    assert_eq!(rec.config_file_path, "/etc/nixos/db.nix");
    assert_eq!(rec.description.as_deref(), Some("database"));
    assert_eq!(rec.created_at, rec.updated_at);
}

#[test]
fn generated_ids_are_hyphenated_uuids() {
    let mut table = ServerTable::new(name());
    let a = created_id(handle_add_server(&mut table, &name(), create("a", "/a", None)));
    let b = created_id(handle_add_server(&mut table, &name(), create("b", "/b", None)));
    assert_eq!(a.len(), 36);
    assert_eq!(a.matches('-').count(), 4);
    assert_ne!(a, b);
    assert_eq!(table.len(), 2);
}

#[test]
fn update_description_only_keeps_path() {
    let mut table = ServerTable::new(name());
    let id = created_id(handle_add_server(&mut table, &name(), create("db", "/etc/db.nix", Some("old"))));
    let before = listed(&table).remove(0);
    let r = handle_update_config(&mut table, &name(),
        &id,
        Payload::Parsed(UpdateServerRequest {
            config_file_path: None,
            description: Some("new".to_string()),
        }),
    );
    assert_eq!(r.status(), 200);
    assert!(matches!(&r, ApiResponse::Updated { server_id } if *server_id == id));
    let after = listed(&table).remove(0);
    assert_eq!(after.config_file_path, "/etc/db.nix");
    assert_eq!(after.description.as_deref(), Some("new"));
    assert_eq!(after.created_at, before.created_at);
    assert!(after.updated_at.micros > before.updated_at.micros);
    assert_eq!(after.server_name, "db");
}

#[test]
fn update_path_only_keeps_description() {
    let mut table = ServerTable::new(name());
    let id = created_id(handle_add_server(&mut table, &name(), create("db", "/etc/db.nix", Some("keep"))));
    handle_update_config(&mut table, &name(),
        &id,
        Payload::Parsed(UpdateServerRequest {
            config_file_path: Some("/etc/db2.nix".to_string()),
            description: None,
        }),
    );
    let after = listed(&table).remove(0);
    assert_eq!(after.config_file_path, "/etc/db2.nix");
    assert_eq!(after.description.as_deref(), Some("keep"));
}

#[test]
fn update_with_no_fields_is_accepted() {
    let mut table = ServerTable::new(name());
    let id = created_id(handle_add_server(&mut table, &name(), create("db", "/etc/db.nix", None)));
    let r = handle_update_config(&mut table, &name(),
        &id,
        Payload::Parsed(UpdateServerRequest { config_file_path: None, description: None }),
    );
    assert_eq!(r.status(), 200);
    assert_eq!(listed(&table)[0].config_file_path, "/etc/db.nix");
}

#[test]
fn update_unknown_id_is_not_found_and_creates_nothing() {
    let mut table = ServerTable::new(name());
    let r = handle_update_config(&mut table, &name(),
        &"missing".to_string(),
        Payload::Parsed(UpdateServerRequest {
            config_file_path: Some("/x".to_string()),
            description: None,
        }),
    );
    assert!(matches!(r, ApiResponse::Failed(ApiError::ServerNotFound)));
    assert_eq!(r.status(), 404);
    assert_eq!(listed(&table).len(), 0);
}

#[test]
fn delete_then_list_omits_id() {
    let mut table = ServerTable::new(name());
    let keep = created_id(handle_add_server(&mut table, &name(), create("a", "/a", None)));
    let gone = created_id(handle_add_server(&mut table, &name(), create("b", "/b", None)));
    let r = handle_delete_config(&mut table, &name(), &gone);
    assert_eq!(r.status(), 200);
    let servers = listed(&table);
    assert_eq!(servers.len(), 1);
    assert_eq!(servers[0].server_id, keep);
    assert!(table.get_item(&name(), &gone).unwrap().is_none());
}

#[test]
fn delete_absent_id_is_not_an_error() {
    let mut table = ServerTable::new(name());
    handle_add_server(&mut table, &name(), create("a", "/a", None));
    let r = handle_delete_config(&mut table, &name(), &"nope".to_string());
    assert!(matches!(&r, ApiResponse::Deleted { server_id } if server_id == "nope"));
    assert_eq!(r.status(), 200);
    assert_eq!(table.len(), 1);
}

#[test]
fn list_empty_store_is_empty() {
    let table = ServerTable::new(name());
    let r = handle_list_servers(&table, &name());
    assert_eq!(r.status(), 200);
    assert_eq!(r.count(), 0);
    assert!(matches!(r, ApiResponse::Listed(v) if v.is_empty()));
}

#[test]
fn bad_bodies_give_400() {
    let mut table = ServerTable::new(name());
    let cases = [
        (Payload::Empty, ApiError::BodyRequired, "Request body is required"),
        (Payload::Unreadable, ApiError::InvalidBody, "Invalid request body"),
        (Payload::Malformed, ApiError::InvalidJson, "Invalid JSON format"),
    ];
    for (body, err, text) in cases {
        let r = handle_add_server(&mut table, &name(), body);
        assert!(matches!(r, ApiResponse::Failed(e) if e == err));
        assert_eq!(r.status(), 400);
        assert_eq!(err.message(), text);
    }
    let r = handle_update_config(&mut table, &name(), &"x".to_string(), Payload::Empty);
    assert!(matches!(r, ApiResponse::Failed(ApiError::BodyRequired)));
    assert_eq!(table.len(), 0);
}

#[test]
fn payload_request_passes_parsed_value() {
    assert_eq!(payload_request(Payload::Parsed(7u8)), Ok(7u8));
    assert_eq!(payload_request::<u8>(Payload::Malformed), Err(ApiError::InvalidJson));
}

#[test]
fn error_statuses_and_messages() {
    assert_eq!(ApiError::EndpointNotFound.status(), 404);
    assert_eq!(ApiError::EndpointNotFound.message(), "Endpoint not found");
    assert_eq!(ApiError::AddFailed.status(), 500);
    assert_eq!(ApiError::AddFailed.message(), "Failed to add server");
    assert_eq!(ApiError::ListFailed.message(), "Failed to list servers");
    assert_eq!(ApiError::CheckFailed.message(), "Failed to check server");
    assert_eq!(ApiError::UpdateFailed.message(), "Failed to update server");
    assert_eq!(ApiError::DeleteFailed.status(), 500);
    assert_eq!(ApiError::DeleteFailed.message(), "Failed to delete server");
    assert_eq!(ApiError::ServerNotFound.message(), "Server not found");
}

#[test]
fn routes_by_method_and_path() {
    assert!(matches!(route(Method::Post, "/servers"), Route::AddServer));
    assert!(matches!(route(Method::Get, "/servers"), Route::ListServers));
    assert!(matches!(route(Method::Get, "//servers"), Route::ListServers));
    assert!(matches!(route(Method::Put, "/servers/abc"), Route::UpdateConfig(id) if id == "abc"));
    assert!(matches!(route(Method::Delete, "/servers/abc"), Route::DeleteConfig(id) if id == "abc"));
    assert!(matches!(route(Method::Put, "/servers"), Route::NotFound));
    assert!(matches!(route(Method::Get, "/servers/abc"), Route::NotFound));
    assert!(matches!(route(Method::Delete, "/servers/a/b"), Route::NotFound));
    assert!(matches!(route(Method::Get, "/other"), Route::NotFound));
    assert!(matches!(route(Method::Other, "/servers"), Route::NotFound));
    assert!(matches!(route(Method::Delete, "/servers/"), Route::DeleteConfig(id) if id.is_empty()));
}

#[test]
fn from_request_sets_equal_timestamps() {
    let rec = ServerConfig::from_request(
        CreateServerRequest {
            server_name: "n".to_string(),
            config_file_path: "/p".to_string(),
            description: None,
        },
        "id-1".to_string(),
        Timestamp { micros: 1_700_000_000_000_000 },
    );
    assert_eq!(rec.server_id, "id-1");
    assert_eq!(rec.created_at, Timestamp { micros: 1_700_000_000_000_000 });
    assert_eq!(rec.updated_at, rec.created_at);
}

#[test]
fn create_with_empty_name_or_path_is_refused() {
    let mut table = ServerTable::new(name());
    let r = handle_add_server(&mut table, &name(), create("", "/p", None));
    assert!(matches!(r, ApiResponse::Failed(ApiError::FieldsRequired)));
    assert_eq!(r.status(), 400);
    let r = handle_add_server(&mut table, &name(), create("n", "", None));
    assert!(matches!(r, ApiResponse::Failed(ApiError::FieldsRequired)));
    assert_eq!(table.len(), 0);
    assert_eq!(ApiError::FieldsRequired.message(), "Server name and config path are required");
}

#[test]
fn store_failures_give_500() {
    let mut table = ServerTable::new(name());
    let id = created_id(handle_add_server(&mut table, &name(), create("a", "/a", None)));
    let other = "missing-table".to_string();
    let r = handle_add_server(&mut table, &other, create("b", "/b", None));
    assert!(matches!(r, ApiResponse::Failed(ApiError::AddFailed)));
    assert_eq!(r.status(), 500);
    let r = handle_list_servers(&table, &other);
    assert!(matches!(r, ApiResponse::Failed(ApiError::ListFailed)));
    let r = handle_update_config(
        &mut table,
        &other,
        &id,
        Payload::Parsed(UpdateServerRequest { config_file_path: None, description: None }),
    );
    assert!(matches!(r, ApiResponse::Failed(ApiError::CheckFailed)));
    let r = handle_delete_config(&mut table, &other, &id);
    assert!(matches!(r, ApiResponse::Failed(ApiError::DeleteFailed)));
    assert_eq!(r.status(), 500);
    assert_eq!(table.len(), 1);
}

#[test]
fn later_time_moves_forward() {
    let t = |m: i64| Timestamp { micros: m };
    assert_eq!(later_time(t(10), t(20)), t(20));
    assert_eq!(later_time(t(10), t(10)), t(11));
    assert_eq!(later_time(t(10), t(3)), t(11));
    assert_eq!(later_time(t(i64::MAX), t(3)), t(3));
}
