use chrono::NaiveDate;
use pyew::assets::{asset_is_looked_up, asset_paths_with_prefix, combined_list, combined_load, missing_asset_message};
use pyew::config::{ConnectionConfig, SqliteConfig};
use pyew::connection_list::{connection_list_item, ConnectionListItem};
use pyew::connections::{ConnectionService, CreateConnection, UpdateConnection};
use pyew::icons::AppIcon;
use pyew::local_data::{app_dir_name, database_file_name, database_url, migration_plan, primary_workspace_insert_sql, MigrationPlan};
use pyew::sidebar::ConnectionSidebarState;

fn time(h: u32) -> chrono::NaiveDateTime {
    NaiveDate::from_ymd_opt(2025, 1, 2).unwrap().and_hms_opt(h, 0, 0).unwrap()
}

fn sqlite() -> ConnectionConfig {
    ConnectionConfig::Sqlite(SqliteConfig { file_path: "a.db".into(), extra_params: None })
}

#[test]
fn local_database_location() {
    assert_eq!(app_dir_name(), "pyew");
    assert_eq!(database_file_name(), "data.db");
    assert_eq!(database_url("/home/me/.local/share/pyew"), "sqlite:///home/me/.local/share/pyew/data.db?mode=rwc");
}

#[test]
fn migrations_run_when_needed() {
    assert_eq!(migration_plan(false, 0), MigrationPlan::CreateNew);
    assert_eq!(migration_plan(false, 3), MigrationPlan::CreateNew);
    assert_eq!(migration_plan(true, 2), MigrationPlan::ApplyPending(2));
    assert_eq!(migration_plan(true, 0), MigrationPlan::UpToDate);
}

#[test]
fn primary_workspace_insert() {
    let now = "2025-09-25 10:00:00";
    assert_eq!(
        primary_workspace_insert_sql(now),
        "INSERT INTO workspace (id, name, is_opened, last_opened, created_at, updated_at) SELECT x'00000000000040008000000000000001', 'Primary', 1, '2025-09-25 10:00:00', '2025-09-25 10:00:00', '2025-09-25 10:00:00' WHERE NOT EXISTS (SELECT 1 FROM workspace WHERE name = 'Primary')"
    );
}

#[test]
fn icon_paths() {
    assert_eq!(AppIcon::Database.path(), "icons/database.svg");
    assert_eq!(AppIcon::Ai.path(), "icons/ai.svg");
    assert_eq!(AppIcon::Save.path(), "icons/save.svg");
    assert_eq!(AppIcon::History.path(), "icons/history.svg");
    assert_eq!(AppIcon::Code.path(), "icons/code.svg");
    assert_eq!(AppIcon::Refresh.path(), "icons/refresh.svg");
}

#[test]
fn asset_listing_and_lookup() {
    let paths = vec!["icons/a.svg".to_string(), "fonts/x.ttf".to_string(), "icons/b.svg".to_string(), "icon".to_string()];
    assert_eq!(asset_paths_with_prefix(&paths, "icons/"), vec!["icons/a.svg", "icons/b.svg"]);
    assert_eq!(asset_paths_with_prefix(&paths, ""), paths);
    assert!(asset_paths_with_prefix(&paths, "zzz").is_empty());
    assert!(!asset_is_looked_up(""));
    assert!(asset_is_looked_up("icons/a.svg"));
    assert_eq!(missing_asset_message("x.svg"), "could not find asset at path \"x.svg\"");
}

#[test]
fn combined_sources() {
    let first: Result<Option<u8>, ()> = Ok(Some(1));
    let mut asked = false;
    assert_eq!(combined_load(first, || { asked = true; Ok(Some(2)) }), Ok(Some(1)));
    assert!(!asked, "the second source is not asked when the first finds the asset");
    assert_eq!(combined_load(Ok(None), || Ok(Some(2))), Ok::<Option<u8>, ()>(Some(2)));
    assert_eq!(combined_load(Err(()), || Err::<Option<u8>, ()>(())), Err(()));
    assert_eq!(combined_load(Err(()), || Ok::<Option<u8>, ()>(None)), Ok(None));
    assert_eq!(combined_list::<i32, ()>(Ok(vec![1, 2]), Ok(vec![3])), vec![1, 2, 3]);
    assert_eq!(combined_list::<i32, ()>(Err(()), Ok(vec![3])), vec![3]);
    assert_eq!(combined_list::<u8, ()>(Ok(vec![1]), Err(())), vec![1]);
}

#[test]
fn sidebar_refresh() {
    let mut s = ConnectionSidebarState::new();
    assert!(s.shows_empty_message());
    assert!(!s.begin_refresh(false));
    assert_eq!(s.error.as_deref(), Some("App state is not initialized"));
    assert!(!s.shows_empty_message());
    assert!(s.begin_refresh(true));
    assert!(s.is_loading && s.error.is_none());
    let item: ConnectionListItem = connection_list_item(1, Some("c".into()), Some(sqlite()));
    s.finish_refresh(Ok(vec![item.clone()]));
    assert_eq!(s.connections, vec![item]);
    assert!(!s.is_loading);
    s.finish_refresh(Err("boom".into()));
    assert!(s.connections.is_empty());
    assert_eq!(s.error.as_deref(), Some("boom"));
}

#[test]
fn creating_a_connection_record() {
    let input = CreateConnection { workspace_id: 9, connection_name: Some("n".into()), connection_config: sqlite(), last_connected_at: None };
    let json = serde_json::Value::String("sqlite".to_string());
    let r = ConnectionService::create_connection(input, json.clone(), time(3));
    let id = uuid::Uuid::from_u128(r.id);
    assert_eq!(id.get_version_num(), 4);
    assert_eq!(id.get_variant(), uuid::Variant::RFC4122);
    assert_eq!(r.workspace_id, 9);
    assert_eq!(r.connection_config, json);
    assert_eq!(r.created_at, Some(time(3)));
    assert_eq!(r.updated_at, Some(time(3)));
    let again = ConnectionService::create_connection(
        CreateConnection { workspace_id: 9, connection_name: None, connection_config: sqlite(), last_connected_at: None },
        serde_json::Value::Null,
        time(3),
    );
    assert_ne!(again.id, r.id);
}

#[test]
fn connection_record_with_a_given_id() {
    let input = CreateConnection { workspace_id: 4, connection_name: None, connection_config: sqlite(), last_connected_at: Some(time(1)) };
    let r = ConnectionService::new_connection_record(77, input, serde_json::Value::Bool(true), time(5));
    assert_eq!(r.id, 77);
    assert_eq!(r.workspace_id, 4);
    assert_eq!(r.connection_name, None);
    assert_eq!(r.connection_config, serde_json::Value::Bool(true));
    assert_eq!(r.last_connected_at, Some(time(1)));
    assert_eq!(r.created_at, Some(time(5)));
    assert_eq!(r.updated_at, Some(time(5)));
}

#[test]
fn updating_a_connection_record() {
    let input = CreateConnection { workspace_id: 9, connection_name: Some("n".into()), connection_config: sqlite(), last_connected_at: Some(time(1)) };
    let r = ConnectionService::create_connection(input, serde_json::Value::Null, time(2));
    let id = r.id;
    let keep = UpdateConnection { connection_name: None, connection_config: None, last_connected_at: None };
    let r = ConnectionService::update_connection(r, keep, None, time(4));
    assert_eq!(r.id, id);
    assert_eq!(r.connection_name.as_deref(), Some("n"));
    assert_eq!(r.last_connected_at, Some(time(1)));
    assert_eq!(r.created_at, Some(time(2)));
    assert_eq!(r.updated_at, Some(time(4)));
    let change = UpdateConnection { connection_name: Some(None), connection_config: Some(sqlite()), last_connected_at: Some(None) };
    let r = ConnectionService::update_connection(r, change, Some(serde_json::Value::Bool(true)), time(5));
    assert_eq!(r.connection_name, None);
    assert_eq!(r.connection_config, serde_json::Value::Bool(true));
    assert_eq!(r.last_connected_at, None);
    assert_eq!(r.updated_at, Some(time(5)));
}

#[test]
fn deletes_count_when_a_row_went() {
    assert!(ConnectionService::connection_deleted(1));
    assert!(!ConnectionService::connection_deleted(0));
}

#[test]
fn id_text_reads_back() {
    for id in [0u128, 1, 0x0000_0000_0000_4000_8000_0000_0000_0001, u128::MAX, 0x1234_5678_9abc_def0_0fed_cba9_8765_4321] {
        assert_eq!(pyew::ids::parse_id(&pyew::ids::id_to_text(id)), Some(id));
    }
    assert_eq!(pyew::ids::parse_id("not an id"), None);
}
