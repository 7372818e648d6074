use pyew::config::{ConnectionConfig, SqliteConfig, PostgresConfig};
use pyew::error::PluginError;
use pyew::registry::{create_plugin_registry, ConnectionService, DatabasePluginRegistry};

#[test]
fn register_then_get() {
    let mut r: DatabasePluginRegistry<&str> = DatabasePluginRegistry::new();
    assert!(r.available_plugins().is_empty());
    r.register("sqlite", "lite");
    r.register("mysql", "my");
    assert_eq!(r.get("sqlite"), Some(&"lite"));
    assert_eq!(r.get("mysql"), Some(&"my"));
    assert_eq!(r.get("postgres"), None);
    r.register("sqlite", "lite2");
    assert_eq!(r.get("sqlite"), Some(&"lite2"));
    assert_eq!(r.available_plugins(), vec!["mysql".to_string(), "sqlite".to_string()]);
}

#[test]
fn default_registry_lists_plugins_sorted() {
    let r = create_plugin_registry(1, 2, 3);
    assert_eq!(r.available_plugins(), vec!["mysql", "postgres", "sqlite"]);
    assert_eq!(r.get("postgres"), Some(&1));
    assert_eq!(r.get("mysql"), Some(&2));
    assert_eq!(r.get("sqlite"), Some(&3));
}

#[test]
fn service_picks_plugin_by_database_type() {
    let mut r = DatabasePluginRegistry::new();
    r.register("sqlite", 'S');
    let service = ConnectionService::new(r);
    let lite = ConnectionConfig::Sqlite(SqliteConfig { file_path: "a.db".into(), extra_params: None });
    assert_eq!(service.plugin_for(&lite), Ok(&'S'));
    let pg = ConnectionConfig::Postgres(PostgresConfig {
        host: "h".into(),
        port: 1,
        database_name: "d".into(),
        username: "u".into(),
        password: None,
        ssl_mode: None,
        extra_params: None,
    });
    let err = service.plugin_for(&pg).unwrap_err();
    assert_eq!(err, PluginError::PluginUnavailable("postgres".into()));
    assert_eq!(err.message(), "postgres plugin is not available");
}

#[test]
fn registrations_keep_the_last_plugin_per_name() {
    let mut registry = DatabasePluginRegistry::new();
    registry.register("sqlite", 1);
    registry.register("mysql", 2);
    registry.register("sqlite", 3);
    assert_eq!(registry.available_plugins(), vec!["mysql".to_string(), "sqlite".to_string()]);
    assert_eq!(registry.get("sqlite"), Some(&3));
    assert_eq!(registry.get("mysql"), Some(&2));
    assert_eq!(registry.get("postgres"), None);
}
