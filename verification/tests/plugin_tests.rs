use pyew::app_state::DbType;
use pyew::config::{ConnectionConfig, MySqlConfig, SqliteConfig};
use pyew::error::PluginError;
use pyew::plugins::{
    ConnectOptionsError, MySqlConnectSettings, MySqlPlugin, SqliteConnectSettings, SqlitePlugin, SqlitePragmaColumn, SqliteTableInfo,
    MAX_POOL_CONNECTIONS,
};

fn mysql_config() -> ConnectionConfig {
    ConnectionConfig::MySql(MySqlConfig {
        host: "localhost".into(),
        port: 3306,
        database_name: "shop".into(),
        username: "root".into(),
        password: Some("pw".into()),
        extra_params: None,
    })
}

fn sqlite_config() -> ConnectionConfig {
    ConnectionConfig::Sqlite(SqliteConfig { file_path: "/tmp/x.db".into(), extra_params: None })
}

#[test]
fn plugins_name_their_database() {
    assert_eq!(MySqlPlugin.db_type(), "mysql");
    assert_eq!(SqlitePlugin.db_type(), "sqlite");
    assert_eq!(MySqlPlugin.quote(), '`');
    assert_eq!(SqlitePlugin.quote(), '"');
    assert_eq!(MAX_POOL_CONNECTIONS, 5);
}

#[test]
fn connect_accepts_only_own_settings() {
    let my = mysql_config();
    let lite = sqlite_config();
    match MySqlPlugin.connect_config(&my) {
        Ok(c) => assert_eq!(c.database_name, "shop"),
        Err(e) => panic!("{:?}", e),
    }
    assert_eq!(MySqlPlugin.connect_config(&lite).unwrap_err(), PluginError::InvalidConfig(DbType::MySQL));
    assert_eq!(SqlitePlugin.connect_config(&lite).unwrap().file_path, "/tmp/x.db");
    assert_eq!(SqlitePlugin.connect_config(&my).unwrap_err(), PluginError::InvalidConfig(DbType::SQLite));
    assert_eq!(PluginError::InvalidConfig(DbType::MySQL).message(), "invalid config for mysql plugin");
    assert_eq!(PluginError::InvalidConfig(DbType::SQLite).message(), "invalid config for sqlite plugin");
}

#[test]
fn handles_are_checked() {
    assert_eq!(MySqlPlugin.check_handle(DbType::MySQL), Ok(()));
    assert_eq!(MySqlPlugin.check_handle(DbType::Postgres), Err(PluginError::InvalidHandle(DbType::MySQL)));
    assert_eq!(SqlitePlugin.check_handle(DbType::SQLite), Ok(()));
    assert_eq!(SqlitePlugin.check_handle(DbType::MySQL), Err(PluginError::InvalidHandle(DbType::SQLite)));
}

#[test]
fn metadata_queries() {
    assert!(MySqlPlugin.metadata_query().contains("FROM information_schema.columns"));
    assert!(MySqlPlugin.metadata_query().contains("ORDER BY table_schema, table_name, ordinal_position"));
    assert!(SqlitePlugin.tables_query().contains("name NOT LIKE 'sqlite_%'"));
}

#[test]
fn table_info_query_quotes_the_table() {
    assert_eq!(SqlitePlugin.table_info_query("users").unwrap(), "PRAGMA table_info(\"users\")");
    assert_eq!(SqlitePlugin.table_info_query("a\"b").unwrap(), "PRAGMA table_info(\"a\"\"b\")");
    assert_eq!(SqlitePlugin.table_info_query(""), Err(PluginError::EmptyIdentifier));
}

#[test]
fn sqlite_metadata_is_one_main_schema() {
    let tables = vec![
        SqliteTableInfo {
            name: "albums".into(),
            columns: vec![
                SqlitePragmaColumn { cid: 0, name: "id".into(), data_type: "INTEGER".into(), notnull: 1 },
                SqlitePragmaColumn { cid: 1, name: "title".into(), data_type: "TEXT".into(), notnull: 0 },
            ],
        },
        SqliteTableInfo { name: "empty".into(), columns: vec![] },
    ];
    let m = SqlitePlugin.metadata_from_tables(&tables);
    assert_eq!(m.schemas.len(), 1);
    let s = &m.schemas[0];
    assert_eq!(s.name, "main");
    assert_eq!(s.tables.len(), 2);
    assert_eq!(s.tables[0].name, "albums");
    assert_eq!(s.tables[0].columns[0].name, "id");
    assert!(!s.tables[0].columns[0].is_nullable);
    assert_eq!(s.tables[0].columns[0].ordinal_position, 1);
    assert_eq!(s.tables[0].columns[1].data_type, "TEXT");
    assert!(s.tables[0].columns[1].is_nullable);
    assert_eq!(s.tables[0].columns[1].ordinal_position, 2);
    assert!(s.tables[1].columns.is_empty());
}

#[test]
fn mysql_connect_settings_follow_the_config() {
    let settings = MySqlPlugin.connect_settings(&mysql_config()).unwrap();
    let ConnectionConfig::MySql(c) = mysql_config() else { unreachable!() };
    assert_eq!(
        settings,
        MySqlConnectSettings {
            host: c.host.clone(),
            port: c.port,
            database: c.database_name.clone(),
            username: c.username.clone(),
            password: c.password.clone(),
            statement_logging: false,
            max_connections: MAX_POOL_CONNECTIONS,
        }
    );
    let no_password = ConnectionConfig::MySql(MySqlConfig { password: None, ..c });
    assert_eq!(MySqlPlugin.connect_settings(&no_password).unwrap().password, None);
    assert_eq!(
        MySqlPlugin.connect_settings(&sqlite_config()),
        Err(PluginError::InvalidConfig(DbType::MySQL))
    );
}

#[test]
fn sqlite_connect_settings_follow_the_config() {
    let config = ConnectionConfig::Sqlite(SqliteConfig { file_path: "/tmp/some.db".into(), extra_params: None });
    assert_eq!(
        SqlitePlugin.connect_settings(&config).unwrap(),
        SqliteConnectSettings {
            file_path: "/tmp/some.db".into(),
            create_if_missing: true,
            max_connections: MAX_POOL_CONNECTIONS,
        }
    );
    let bad = ConnectionConfig::Sqlite(SqliteConfig { file_path: "x.db?mode=sideways".into(), extra_params: None });
    assert!(matches!(SqlitePlugin.connect_settings(&bad), Err(ConnectOptionsError::Driver(_))));
    assert!(matches!(
        SqlitePlugin.connect_settings(&mysql_config()),
        Err(ConnectOptionsError::Plugin(PluginError::InvalidConfig(DbType::SQLite)))
    ));
}
