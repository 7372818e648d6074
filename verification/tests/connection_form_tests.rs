use pyew::config::{ConnectionConfig, DatabaseType};
use pyew::connection_form::{ConnectionForm, FormFields};

#[test]
fn new_form_is_blank_postgres() {
    let form = ConnectionForm::new();
    assert_eq!(form.database_type, DatabaseType::Postgres);
    assert_eq!(form.port, "");
    assert_eq!(form.fields(), FormFields::Server);
    assert_eq!(form.config(), Err("Postgres port must be a number".to_string()));
}

#[test]
fn choosing_a_server_database_fills_in_its_port() {
    let mut form = ConnectionForm::new();
    form.port = "1234".to_string();
    form.select_database_type(DatabaseType::MySql);
    assert_eq!(form.port, "3306");
    form.select_database_type(DatabaseType::Postgres);
    assert_eq!(form.port, "5432");
    form.select_database_type(DatabaseType::Sqlite);
    assert_eq!(form.port, "5432");
    assert_eq!(form.fields(), FormFields::SqlitePath);
}

#[test]
fn submitted_form_values_are_trimmed() {
    let mut form = ConnectionForm::new();
    form.select_database_type(DatabaseType::MySql);
    form.host = "  db.local ".to_string();
    form.username = " root".to_string();
    form.password = "   ".to_string();
    form.database = "shop\n".to_string();
    match form.config() {
        Ok(ConnectionConfig::MySql(c)) => {
            assert_eq!(c.host, "db.local");
            assert_eq!(c.port, 3306);
            assert_eq!(c.username, "root");
            assert_eq!(c.password, None);
            assert_eq!(c.database_name, "shop");
            assert_eq!(c.extra_params, None);
        }
        other => panic!("unexpected outcome {:?}", other),
    }
}

#[test]
fn postgres_form_with_bad_port_is_refused() {
    let mut form = ConnectionForm::new();
    form.port = "54x2".to_string();
    assert_eq!(form.config(), Err("Postgres port must be a number".to_string()));
    form.port = " 70000 ".to_string();
    assert_eq!(form.config(), Err("Postgres port must be a number".to_string()));
    form.port = " 6543 ".to_string();
    form.password = " secret ".to_string();
    match form.config() {
        Ok(ConnectionConfig::Postgres(c)) => {
            assert_eq!(c.port, 6543);
            assert_eq!(c.password, Some("secret".to_string()));
            assert_eq!(c.ssl_mode, None);
        }
        other => panic!("unexpected outcome {:?}", other),
    }
}

#[test]
fn sqlite_form_needs_a_path() {
    let mut form = ConnectionForm::new();
    form.select_database_type(DatabaseType::Sqlite);
    form.sqlite_path = "   ".to_string();
    assert_eq!(form.config(), Err("SQLite file path is required".to_string()));
    form.sqlite_path = " /tmp/a.db ".to_string();
    match form.config() {
        Ok(ConnectionConfig::Sqlite(c)) => assert_eq!(c.file_path, "/tmp/a.db"),
        other => panic!("unexpected outcome {:?}", other),
    }
}

#[test]
fn saved_connection_from_form() {
    let mut form = ConnectionForm::new();
    form.select_database_type(DatabaseType::Sqlite);
    form.sqlite_path = "/data/app.db".to_string();
    form.name = "  ".to_string();
    let saved = form.connection_to_save(7).unwrap();
    assert_eq!(saved.workspace_id, 7);
    assert_eq!(saved.connection_name, None);
    assert_eq!(saved.last_connected_at, None);
    form.name = " Local ".to_string();
    let saved = form.connection_to_save(7).unwrap();
    assert_eq!(saved.connection_name, Some("Local".to_string()));
    form.sqlite_path = String::new();
    assert_eq!(form.connection_to_save(7), Err("SQLite file path is required".to_string()));
}

#[test]
fn filled_in_port_is_accepted() {
    let mut form = ConnectionForm::new();
    form.select_database_type(DatabaseType::Postgres);
    assert!(matches!(form.config(), Ok(ConnectionConfig::Postgres(c)) if c.port == 5432));
    form.select_database_type(DatabaseType::MySql);
    assert!(matches!(form.config(), Ok(ConnectionConfig::MySql(c)) if c.port == 3306));
}
