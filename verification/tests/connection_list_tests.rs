use pyew::config::{ConnectionConfig, MySqlConfig, PostgresConfig, SqliteConfig};
use pyew::connection_list::{connection_list_item, connection_summary, fallback_connection_name};

fn postgres() -> ConnectionConfig {
    ConnectionConfig::Postgres(PostgresConfig {
        host: "db.example".into(),
        port: 5432,
        database_name: "sales".into(),
        username: "u".into(),
        password: None,
        ssl_mode: None,
        extra_params: None,
    })
}

fn mysql() -> ConnectionConfig {
    ConnectionConfig::MySql(MySqlConfig {
        host: "localhost".into(),
        port: 7,
        database_name: "shop".into(),
        username: "u".into(),
        password: None,
        extra_params: None,
    })
}

fn sqlite() -> ConnectionConfig {
    ConnectionConfig::Sqlite(SqliteConfig { file_path: "/home/me/a.db".into(), extra_params: None })
}

const ID: u128 = 0x67e55044_10b1_426f_9247_bb680e5fe0c8;

#[test]
fn summaries() {
    assert_eq!(connection_summary(&postgres()), "db.example:5432/sales");
    assert_eq!(connection_summary(&mysql()), "localhost:7/shop");
    assert_eq!(connection_summary(&sqlite()), "/home/me/a.db");
}

#[test]
fn fallback_names() {
    assert_eq!(fallback_connection_name(&postgres()), "sales");
    assert_eq!(fallback_connection_name(&mysql()), "shop");
    assert_eq!(fallback_connection_name(&sqlite()), "/home/me/a.db");
}

#[test]
fn item_of_a_named_connection() {
    let item = connection_list_item(ID, Some("Prod".into()), Some(postgres()));
    assert_eq!(item.id, "67e55044-10b1-426f-9247-bb680e5fe0c8");
    assert_eq!(item.name, "Prod");
    assert_eq!(item.database_type, "postgres");
    assert_eq!(item.summary, "db.example:5432/sales");
}

#[test]
fn blank_or_missing_names_fall_back() {
    let item = connection_list_item(ID, Some("  \t".into()), Some(mysql()));
    assert_eq!(item.name, "shop");
    assert_eq!(item.database_type, "mysql");
    let item = connection_list_item(1, None, Some(sqlite()));
    assert_eq!(item.name, "/home/me/a.db");
    assert_eq!(item.id, "00000000-0000-0000-0000-000000000001");
    assert_eq!(item.database_type, "sqlite");
}

#[test]
fn unreadable_settings() {
    let item = connection_list_item(ID, None, None);
    assert_eq!(item.name, "Invalid connection");
    assert_eq!(item.database_type, "unknown");
    assert_eq!(item.summary, "Invalid config");
    // A blank name is kept when the settings cannot be read.
    let item = connection_list_item(ID, Some(" ".into()), None);
    assert_eq!(item.name, " ");
}

#[test]
fn id_text_matches_uuid() {
    for id in [0u128, 1, u128::MAX, ID] {
        let item = connection_list_item(id, None, Some(sqlite()));
        assert_eq!(item.id, uuid::Uuid::from_u128(id).hyphenated().to_string());
    }
}
