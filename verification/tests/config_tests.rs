use pyew::app_state::DbType;
use pyew::config::{
    connection_config_from_form, input_value, optional_input_value, parse_port, ConnectionConfig,
    DatabaseType, MySqlConfig, PostgresConfig, SqliteConfig,
};

#[test]
fn parses_ports_like_str_parse() {
    for text in ["5432", "+80", "0", "00080", "65535", "", "+", "-1", "65536", "99999999999", " 80", "8O", "+-1"] {
        assert_eq!(parse_port(text), text.parse::<u16>().ok(), "{text:?}");
    }
    assert_eq!(parse_port("3306"), Some(3306));
    assert_eq!(parse_port("abc"), None);
}

#[test]
fn port_text_reads_back() {
    for port in [0u16, 7, 80, 5432, 65535] {
        assert_eq!(parse_port(&port.to_string()), Some(port));
    }
}

#[test]
fn labels_and_default_ports() {
    assert_eq!(DatabaseType::Postgres.label(), "Postgres");
    assert_eq!(DatabaseType::MySql.label(), "MySQL");
    assert_eq!(DatabaseType::Sqlite.label(), "Sqlite");
    assert_eq!(DatabaseType::Postgres.default_port(), Some("5432"));
    assert_eq!(DatabaseType::MySql.default_port(), Some("3306"));
    assert_eq!(DatabaseType::Sqlite.default_port(), None);
}

#[test]
fn form_values_are_trimmed() {
    assert_eq!(input_value("  localhost \t\n"), "localhost");
    assert_eq!(input_value("\u{3000}a b\u{a0}"), "a b");
    assert_eq!(input_value("   "), "");
    assert_eq!(optional_input_value("  "), None);
    assert_eq!(optional_input_value(" pw "), Some("pw".to_string()));
    for text in ["", " x ", "\u{2003}y\u{85}", "a\u{200b}"] {
        assert_eq!(input_value(text), text.trim());
    }
}

#[test]
fn postgres_form() {
    let c = connection_config_from_form(
        DatabaseType::Postgres,
        "db.local".into(),
        "5432".into(),
        "me".into(),
        Some("pw".into()),
        "app".into(),
        "".into(),
    )
    .unwrap();
    assert_eq!(
        c,
        ConnectionConfig::Postgres(PostgresConfig {
            host: "db.local".into(),
            port: 5432,
            database_name: "app".into(),
            username: "me".into(),
            password: Some("pw".into()),
            ssl_mode: None,
            extra_params: None,
        })
    );
    assert_eq!(c.database_type(), "postgres");
    assert_eq!(c.db_type(), DbType::Postgres);
}

#[test]
fn mysql_form() {
    let c = connection_config_from_form(
        DatabaseType::MySql,
        "h".into(),
        "3306".into(),
        "u".into(),
        None,
        "d".into(),
        "/ignored".into(),
    )
    .unwrap();
    assert_eq!(
        c,
        ConnectionConfig::MySql(MySqlConfig {
            host: "h".into(),
            port: 3306,
            database_name: "d".into(),
            username: "u".into(),
            password: None,
            extra_params: None,
        })
    );
    assert_eq!(c.database_type(), "mysql");
}

#[test]
fn bad_ports_are_refused() {
    let e = connection_config_from_form(DatabaseType::Postgres, "h".into(), "port".into(), "u".into(), None, "d".into(), "".into());
    assert_eq!(e, Err("Postgres port must be a number".to_string()));
    let e = connection_config_from_form(DatabaseType::MySql, "h".into(), "70000".into(), "u".into(), None, "d".into(), "".into());
    assert_eq!(e, Err("MySQL port must be a number".to_string()));
}

#[test]
fn sqlite_form() {
    let e = connection_config_from_form(DatabaseType::Sqlite, "".into(), "".into(), "".into(), None, "".into(), "".into());
    assert_eq!(e, Err("SQLite file path is required".to_string()));
    let c = connection_config_from_form(DatabaseType::Sqlite, "".into(), "x".into(), "".into(), None, "".into(), "/data/a.db".into()).unwrap();
    assert_eq!(c, ConnectionConfig::Sqlite(SqliteConfig { file_path: "/data/a.db".into(), extra_params: None }));
    assert_eq!(c.database_type(), "sqlite");
}
