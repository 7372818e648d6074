//! The MySQL and SQLite plugins: which settings and handles each accepts,
//! and the statements each sends.
//!
//! MySQL quotes identifiers with back-ticks, SQLite with double quotes; both
//! mark parameters with `?`.

use vstd::prelude::*;
use vstd::string::StringExecFns;
use crate::app_state::{db_type_name, DbType};
use crate::config::{config_db_type, ConnectionConfig, MySqlConfig, SqliteConfig};
use crate::connection_form::text_of;
use crate::error::PluginError;
use crate::sql::{quote_identifier, quoted};
use crate::statement::{
    delete_outcome, delete_statement, insert_outcome, insert_statement, schema_text,
    select_outcome, select_statement, statement_view, update_outcome, update_statement, Statement,
};
use crate::text::push_str;
use crate::values::{SqlValue, ColumnMetadata, ColumnView, CrudFilter, CrudRow, DatabaseMetadata,
    SchemaMetadata, SchemaView, TableMetadata, TableView};

verus! {

/// The largest number of connections a plugin's pool opens.
pub const MAX_POOL_CONNECTIONS: u32 = 5;

/// `outcome` when the handle is of the expected kind, and otherwise the
/// refusal of the handle.
pub open spec fn checked(
    handle: DbType,
    expected: DbType,
    outcome: Result<(Seq<char>, Seq<SqlValue>), PluginError>,
) -> Result<(Seq<char>, Seq<SqlValue>), PluginError> {
    if handle == expected {
        outcome
    } else {
        Err(PluginError::InvalidHandle(expected))
    }
}

/// The text of the query that lists every column of every user table of a
/// MySQL server (leaving out its own system schemas), ordered by schema,
/// table and position.
pub open spec fn mysql_metadata_query() -> Seq<char> {
    "
            SELECT table_schema, table_name, column_name, data_type, is_nullable, ordinal_position
            FROM information_schema.columns
            WHERE table_schema NOT IN ('information_schema', 'mysql', 'performance_schema', 'sys')
            ORDER BY table_schema, table_name, ordinal_position
            "@
}

/// The text of the query that lists the user tables of a SQLite database
/// (leaving out its own `sqlite_` tables), ordered by name.
pub open spec fn sqlite_tables_query() -> Seq<char> {
    "
            SELECT name
            FROM sqlite_master
            WHERE type = 'table' AND name NOT LIKE 'sqlite_%'
            ORDER BY name
            "@
}

/// An error of the database driver (`sqlx::Error`).
#[verifier::external_type_specification]
#[verifier::external_body]
pub struct ExSqlxError(sqlx::Error);

/// Whether the SQLite driver accepts `path` as a database path or URL
/// (`SqliteConnectOptions::from_str` gives `Ok`). This depends on the text
/// alone: the driver refuses a file part whose percent-decoding is not valid
/// UTF-8, and unknown or malformed `?` parameters.
pub uninterp spec fn sqlite_path_accepted(path: Seq<char>) -> bool;

/// The driver's error for `path`, where the SQLite driver refuses it
/// (`SqliteConnectOptions::from_str`, keeping only its error); none exactly
/// on the paths `sqlite_path_accepted` names.
#[verifier::external_body]
fn sqlite_path_error(path: &str) -> (r: Option<sqlx::Error>)
    ensures
        r is None <==> sqlite_path_accepted(path@),
{
    path.parse::<sqlx::sqlite::SqliteConnectOptions>().err()
}

/// What the SQLite driver is given to connect: the database file path or
/// URL, whether the file is created when missing, and the pool's size.
#[derive(Clone, Debug, PartialEq, Eq)]
pub struct SqliteConnectSettings {
    pub file_path: String,
    pub create_if_missing: bool,
    pub max_connections: u32,
}

/// Why a plugin could not make the settings to connect with.
#[derive(Debug)]
pub enum ConnectOptionsError {
    /// The plugin refused the settings.
    Plugin(PluginError),
    /// The driver refused the settings.
    Driver(sqlx::Error),
}

/// What the MySQL driver is given to connect: the server, the database and
/// the credentials, whether statements are logged, and the pool's size.
#[derive(Clone, Debug, PartialEq, Eq)]
pub struct MySqlConnectSettings {
    pub host: String,
    pub port: u16,
    pub database: String,
    pub username: String,
    pub password: Option<String>,
    pub statement_logging: bool,
    pub max_connections: u32,
}

/// The name of each kind of settings is the name of the plugin that accepts
/// them: settings name `mysql` exactly when they are MySQL settings, which
/// only `MySqlPlugin` (whose `db_type` is `mysql`) accepts, and `sqlite`
/// exactly when they are SQLite settings, which only `SqlitePlugin` accepts.
pub proof fn lemma_plugin_names_agree(config: ConnectionConfig)
    ensures
        (config is MySql) <==> db_type_name(config_db_type(config)) == "mysql"@,
        (config is Sqlite) <==> db_type_name(config_db_type(config)) == "sqlite"@,
        (config is Postgres) <==> db_type_name(config_db_type(config)) == "postgres"@,
{
    reveal_strlit("mysql");
    reveal_strlit("sqlite");
    reveal_strlit("postgres");
    // The three names differ in length.
    assert("mysql"@.len() == 5 && "sqlite"@.len() == 6 && "postgres"@.len() == 8);
    match config {
        ConnectionConfig::Postgres(_) => {
            assert("postgres"@ != "mysql"@ && "postgres"@ != "sqlite"@);
        },
        ConnectionConfig::MySql(_) => {
            assert("mysql"@ != "sqlite"@ && "mysql"@ != "postgres"@);
        },
        ConnectionConfig::Sqlite(_) => {
            assert("sqlite"@ != "mysql"@ && "sqlite"@ != "postgres"@);
        },
    }
}

/// The plugin for MySQL.
#[derive(Clone, Copy, Debug, PartialEq, Eq)]
pub struct MySqlPlugin;

impl MySqlPlugin {
    /// The name of the kind of database this plugin serves.
    pub fn db_type(&self) -> (s: &'static str)
        ensures
            s@ == "mysql"@,
    {
        "mysql"
    }

    /// The character that quotes MySQL identifiers.
    pub fn quote(&self) -> (c: char)
        ensures
            c == '`',
    {
        '`'
    }

    /// The MySQL settings to connect with; settings for another database
    /// are refused.
    pub fn connect_config<'a>(&self, config: &'a ConnectionConfig) -> (r: Result<
        &'a MySqlConfig,
        PluginError,
    >)
        ensures
            match *config {
                ConnectionConfig::MySql(c) => r matches Ok(rc) && *rc == c,
                _ => r == Err::<&MySqlConfig, PluginError>(PluginError::InvalidConfig(DbType::MySQL)),
            },
    {
        match config {
            ConnectionConfig::MySql(c) => Ok(c),
            _ => Err(PluginError::InvalidConfig(DbType::MySQL)),
        }
    }

    /// What the driver is given to connect with the settings `config`:
    /// its server, database, user and password (only when one is given),
    /// with statement logging off and a pool of `MAX_POOL_CONNECTIONS`;
    /// settings for another database are refused.
    pub fn connect_settings(&self, config: &ConnectionConfig) -> (r: Result<MySqlConnectSettings, PluginError>)
        ensures
            match *config {
                ConnectionConfig::MySql(c) => r matches Ok(s) && {
                    &&& s.host@ == c.host@
                    &&& s.port == c.port
                    &&& s.database@ == c.database_name@
                    &&& s.username@ == c.username@
                    &&& text_of(s.password) == text_of(c.password)
                    &&& !s.statement_logging
                    &&& s.max_connections == MAX_POOL_CONNECTIONS
                },
                _ => r == Err::<MySqlConnectSettings, PluginError>(PluginError::InvalidConfig(DbType::MySQL)),
            },
    {
        let c = self.connect_config(config)?;
        let password = match &c.password {
            Some(p) => Some(p.clone()),
            None => None,
        };
        Ok(
            MySqlConnectSettings {
                host: c.host.clone(),
                port: c.port,
                database: c.database_name.clone(),
                username: c.username.clone(),
                password,
                statement_logging: false,
                max_connections: MAX_POOL_CONNECTIONS,
            },
        )
    }

    /// Accepts only a MySQL connection handle.
    pub fn check_handle(&self, handle: DbType) -> (r: Result<(), PluginError>)
        ensures
            handle == DbType::MySQL ==> r is Ok,
            handle != DbType::MySQL ==> r == Err::<(), PluginError>(
                PluginError::InvalidHandle(DbType::MySQL),
            ),
    {
        if handle == DbType::MySQL {
            Ok(())
        } else {
            Err(PluginError::InvalidHandle(DbType::MySQL))
        }
    }

    /// The query that lists every column of every user table, by schema,
    /// table and position.
    pub fn metadata_query(&self) -> (q: &'static str)
        ensures
            q@ == mysql_metadata_query(),
    {
        "
            SELECT table_schema, table_name, column_name, data_type, is_nullable, ordinal_position
            FROM information_schema.columns
            WHERE table_schema NOT IN ('information_schema', 'mysql', 'performance_schema', 'sys')
            ORDER BY table_schema, table_name, ordinal_position
            "
    }

    /// The statement that inserts `row` into `table`.
    pub fn insert_row(
        &self,
        handle: DbType,
        schema: Option<&str>,
        table: &str,
        row: &CrudRow,
    ) -> (r: Result<Statement, PluginError>)
        ensures
            statement_view(r) == checked(
                handle,
                DbType::MySQL,
                insert_outcome(schema_text(schema), table@, row.keys(), row.values(), '`'),
            ),
    {
        self.check_handle(handle)?;
        insert_statement(schema, table, row, '`')
    }

    /// The statement that sets `values` on the rows of `table` that meet
    /// every filter.
    pub fn update_rows(
        &self,
        handle: DbType,
        schema: Option<&str>,
        table: &str,
        values: &CrudRow,
        filters: &[CrudFilter],
    ) -> (r: Result<Statement, PluginError>)
        ensures
            statement_view(r) == checked(
                handle,
                DbType::MySQL,
                update_outcome(schema_text(schema), table@, values.keys(), values.values(), filters@, '`'),
            ),
    {
        self.check_handle(handle)?;
        update_statement(schema, table, values, filters, '`')
    }

    /// The statement that deletes the rows of `table` that meet every filter.
    pub fn delete_rows(
        &self,
        handle: DbType,
        schema: Option<&str>,
        table: &str,
        filters: &[CrudFilter],
    ) -> (r: Result<Statement, PluginError>)
        ensures
            statement_view(r) == checked(
                handle,
                DbType::MySQL,
                delete_outcome(schema_text(schema), table@, filters@, '`'),
            ),
    {
        self.check_handle(handle)?;
        delete_statement(schema, table, filters, '`')
    }

    /// The statement that reads the rows of `table` that meet every filter.
    pub fn select_rows(
        &self,
        handle: DbType,
        schema: Option<&str>,
        table: &str,
        filters: &[CrudFilter],
        limit: Option<u32>,
    ) -> (r: Result<Statement, PluginError>)
        ensures
            statement_view(r) == checked(
                handle,
                DbType::MySQL,
                select_outcome(schema_text(schema), table@, filters@, limit, '`'),
            ),
    {
        self.check_handle(handle)?;
        select_statement(schema, table, filters, limit, '`')
    }
}

/// The plugin for SQLite.
#[derive(Clone, Copy, Debug, PartialEq, Eq)]
pub struct SqlitePlugin;

/// One row of SQLite's `PRAGMA table_info`.
#[derive(Clone, Debug, PartialEq, Eq)]
pub struct SqlitePragmaColumn {
    pub cid: i32,
    pub name: String,
    pub data_type: String,
    pub notnull: i32,
}

/// The column a `PRAGMA table_info` row describes: nullable when `notnull`
/// is 0, at position `cid + 1`.
pub open spec fn pragma_column(c: SqlitePragmaColumn) -> ColumnView {
    ColumnView {
        name: c.name@,
        data_type: c.data_type@,
        is_nullable: c.notnull == 0,
        ordinal_position: (c.cid + 1) as i32,
    }
}

/// The schema `main` with the given tables, in their order.
pub open spec fn sqlite_schema(tables: Seq<(Seq<char>, Seq<SqlitePragmaColumn>)>) -> SchemaView {
    SchemaView {
        name: "main"@,
        tables: tables.map_values(
            |t: (Seq<char>, Seq<SqlitePragmaColumn>)|
                TableView { name: t.0, columns: t.1.map_values(|c: SqlitePragmaColumn| pragma_column(c)) },
        ),
    }
}

/// A table and the `PRAGMA table_info` rows of its columns.
#[derive(Clone, Debug, PartialEq, Eq)]
pub struct SqliteTableInfo {
    pub name: String,
    pub columns: Vec<SqlitePragmaColumn>,
}

impl SqlitePlugin {
    /// The name of the kind of database this plugin serves.
    pub fn db_type(&self) -> (s: &'static str)
        ensures
            s@ == "sqlite"@,
    {
        "sqlite"
    }

    /// The character that quotes SQLite identifiers.
    pub fn quote(&self) -> (c: char)
        ensures
            c == '"',
    {
        '"'
    }

    /// The SQLite settings to connect with; settings for another database
    /// are refused.
    pub fn connect_config<'a>(&self, config: &'a ConnectionConfig) -> (r: Result<
        &'a SqliteConfig,
        PluginError,
    >)
        ensures
            match *config {
                ConnectionConfig::Sqlite(c) => r matches Ok(rc) && *rc == c,
                _ => r == Err::<&SqliteConfig, PluginError>(
                    PluginError::InvalidConfig(DbType::SQLite),
                ),
            },
    {
        match config {
            ConnectionConfig::Sqlite(c) => Ok(c),
            _ => Err(PluginError::InvalidConfig(DbType::SQLite)),
        }
    }

    /// What the driver is given to connect with the settings `config`: its
    /// file path, with the file created when it is missing, and a pool of
    /// `MAX_POOL_CONNECTIONS`. Settings for another database are refused,
    /// and so is a path that the driver does not accept, with the driver's
    /// error.
    pub fn connect_settings(&self, config: &ConnectionConfig) -> (r: Result<
        SqliteConnectSettings,
        ConnectOptionsError,
    >)
        ensures
            match *config {
                ConnectionConfig::Sqlite(c) => {
                    &&& r is Ok <==> sqlite_path_accepted(c.file_path@)
                    &&& r matches Ok(s) ==> s.file_path@ == c.file_path@ && s.create_if_missing
                        && s.max_connections == MAX_POOL_CONNECTIONS
                    &&& r is Err ==> r matches Err(ConnectOptionsError::Driver(_))
                },
                _ => r matches Err(ConnectOptionsError::Plugin(e)) && e == PluginError::InvalidConfig(
                    DbType::SQLite,
                ),
            },
    {
        match self.connect_config(config) {
            Err(e) => Err(ConnectOptionsError::Plugin(e)),
            Ok(c) => match sqlite_path_error(c.file_path.as_str()) {
                Some(e) => Err(ConnectOptionsError::Driver(e)),
                None => Ok(
                    SqliteConnectSettings {
                        file_path: c.file_path.clone(),
                        create_if_missing: true,
                        max_connections: MAX_POOL_CONNECTIONS,
                    },
                ),
            },
        }
    }

    /// Accepts only a SQLite connection handle.
    pub fn check_handle(&self, handle: DbType) -> (r: Result<(), PluginError>)
        ensures
            handle == DbType::SQLite ==> r is Ok,
            handle != DbType::SQLite ==> r == Err::<(), PluginError>(
                PluginError::InvalidHandle(DbType::SQLite),
            ),
    {
        if handle == DbType::SQLite {
            Ok(())
        } else {
            Err(PluginError::InvalidHandle(DbType::SQLite))
        }
    }

    /// The query that lists the user tables by name.
    pub fn tables_query(&self) -> (q: &'static str)
        ensures
            q@ == sqlite_tables_query(),
    {
        "
            SELECT name
            FROM sqlite_master
            WHERE type = 'table' AND name NOT LIKE 'sqlite_%'
            ORDER BY name
            "
    }

    /// `PRAGMA table_info("table")`, which lists the columns of a table.
    pub fn table_info_query(&self, table: &str) -> (r: Result<String, PluginError>)
        ensures
            r is Err <==> table@.len() == 0,
            r matches Err(e) ==> e == PluginError::EmptyIdentifier,
            r matches Ok(q) ==> q@ == "PRAGMA table_info("@ + quoted(table@, '"') + ")"@,
    {
        match quote_identifier(table, '"') {
            Err(_) => Err(PluginError::EmptyIdentifier),
            Ok(name) => {
                let mut q = String::from_str("PRAGMA table_info(");
                push_str(&mut q, name.as_str());
                push_str(&mut q, ")");
                Ok(q)
            },
        }
    }

    /// The metadata of a SQLite database: the one schema `main` with the
    /// given tables, in their order, each with its columns in order.
    pub fn metadata_from_tables(&self, tables: &Vec<SqliteTableInfo>) -> (m: DatabaseMetadata)
        requires
            forall|i: int, j: int|
                0 <= i < tables@.len() && 0 <= j < tables@[i].columns@.len() ==> (
                #[trigger] tables@[i].columns@[j]).cid < i32::MAX,
        ensures
            m@ == seq![
                sqlite_schema(
                    tables@.map_values(
                        |t: SqliteTableInfo| (t.name@, t.columns@),
                    ),
                ),
            ],
    {
        let mut out: Vec<TableMetadata> = Vec::new();
        let mut i: usize = 0;
        while i < tables.len()
            invariant
                i <= tables@.len(),
                out@.len() == i,
                forall|i: int, j: int|
                    0 <= i < tables@.len() && 0 <= j < tables@[i].columns@.len() ==> (
                    #[trigger] tables@[i].columns@[j]).cid < i32::MAX,
                forall|k: int| 0 <= k < i ==> (#[trigger] out@[k])@ == (TableView {
                    name: tables@[k].name@,
                    columns: tables@[k].columns@.map_values(|c: SqlitePragmaColumn| pragma_column(c)),
                }),
            decreases tables.len() - i,
        {
            let table = &tables[i];
            let mut columns: Vec<ColumnMetadata> = Vec::new();
            let mut j: usize = 0;
            while j < table.columns.len()
                invariant
                    j <= table.columns@.len(),
                    columns@.len() == j,
                    forall|k: int| 0 <= k < table.columns@.len() ==> (#[trigger] table.columns@[k]).cid
                        < i32::MAX,
                    forall|k: int| 0 <= k < j ==> (#[trigger] columns@[k])@ == pragma_column(
                        table.columns@[k],
                    ),
                decreases table.columns.len() - j,
            {
                let c = &table.columns[j];
                columns.push(
                    ColumnMetadata {
                        name: c.name.clone(),
                        data_type: c.data_type.clone(),
                        is_nullable: c.notnull == 0,
                        ordinal_position: c.cid + 1,
                    },
                );
                j = j + 1;
            }
            let t = TableMetadata { name: table.name.clone(), columns };
            assert(t@.columns =~= table.columns@.map_values(|c: SqlitePragmaColumn| pragma_column(c)));
            out.push(t);
            i = i + 1;
        }
        let schema = SchemaMetadata { name: String::from_str("main"), tables: out };
        let mut schemas: Vec<SchemaMetadata> = Vec::new();
        schemas.push(schema);
        let m = DatabaseMetadata { schemas };
        assert(schema@.tables =~= sqlite_schema(
            tables@.map_values(|t: SqliteTableInfo| (t.name@, t.columns@)),
        ).tables);
        assert(m@ =~= seq![
            sqlite_schema(
                tables@.map_values(|t: SqliteTableInfo| (t.name@, t.columns@)),
            ),
        ]);
        m
    }

    /// The statement that inserts `row` into `table`.
    pub fn insert_row(
        &self,
        handle: DbType,
        schema: Option<&str>,
        table: &str,
        row: &CrudRow,
    ) -> (r: Result<Statement, PluginError>)
        ensures
            statement_view(r) == checked(
                handle,
                DbType::SQLite,
                insert_outcome(schema_text(schema), table@, row.keys(), row.values(), '"'),
            ),
    {
        self.check_handle(handle)?;
        insert_statement(schema, table, row, '"')
    }

    /// The statement that sets `values` on the rows of `table` that meet
    /// every filter.
    pub fn update_rows(
        &self,
        handle: DbType,
        schema: Option<&str>,
        table: &str,
        values: &CrudRow,
        filters: &[CrudFilter],
    ) -> (r: Result<Statement, PluginError>)
        ensures
            statement_view(r) == checked(
                handle,
                DbType::SQLite,
                update_outcome(schema_text(schema), table@, values.keys(), values.values(), filters@, '"'),
            ),
    {
        self.check_handle(handle)?;
        update_statement(schema, table, values, filters, '"')
    }

    /// The statement that deletes the rows of `table` that meet every filter.
    pub fn delete_rows(
        &self,
        handle: DbType,
        schema: Option<&str>,
        table: &str,
        filters: &[CrudFilter],
    ) -> (r: Result<Statement, PluginError>)
        ensures
            statement_view(r) == checked(
                handle,
                DbType::SQLite,
                delete_outcome(schema_text(schema), table@, filters@, '"'),
            ),
    {
        self.check_handle(handle)?;
        delete_statement(schema, table, filters, '"')
    }

    /// The statement that reads the rows of `table` that meet every filter.
    pub fn select_rows(
        &self,
        handle: DbType,
        schema: Option<&str>,
        table: &str,
        filters: &[CrudFilter],
        limit: Option<u32>,
    ) -> (r: Result<Statement, PluginError>)
        ensures
            statement_view(r) == checked(
                handle,
                DbType::SQLite,
                select_outcome(schema_text(schema), table@, filters@, limit, '"'),
            ),
    {
        self.check_handle(handle)?;
        select_statement(schema, table, filters, limit, '"')
    }
}

} // verus!
