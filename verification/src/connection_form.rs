//! The connection form: what is typed into it, what choosing a kind of
//! database does to it, which inputs it shows, and the connection that
//! saving it asks for.

use vstd::prelude::*;
use vstd::string::StringExecFns;
use crate::config::{
    connection_config_from_form, digits_value, input_value, is_digit, optional_input_value,
    parsed_u16, ConnectionConfig, DatabaseType,
};
use crate::connections::CreateConnection;
use crate::text::{is_white_space, leading_white_space, trailing_white_space, trimmed};

verus! {

/// What is typed into the connection form, and the kind of database chosen.
#[derive(Clone, Debug, PartialEq, Eq)]
pub struct ConnectionForm {
    pub database_type: DatabaseType,
    pub name: String,
    pub host: String,
    pub port: String,
    pub username: String,
    pub password: String,
    pub database: String,
    pub sqlite_path: String,
}

/// The inputs the form shows for the kind of database chosen.
#[derive(Clone, Copy, Debug, PartialEq, Eq, Structural)]
pub enum FormFields {
    /// The path of the SQLite file.
    SqlitePath,
    /// Host, port, user name, password and database name.
    Server,
}

/// The value of an optional field: none where only white space was typed,
/// else the text without its surrounding white space.
pub open spec fn optional_text(raw: Seq<char>) -> Option<Seq<char>> {
    if trimmed(raw).len() == 0 {
        None
    } else {
        Some(trimmed(raw))
    }
}

/// The text of an optional string.
pub open spec fn text_of(s: Option<String>) -> Option<Seq<char>> {
    match s {
        Some(t) => Some(t@),
        None => None,
    }
}

/// What submitting the form `f` gives: the settings it describes, each
/// field without its surrounding white space, or the message of why it
/// describes none.
pub open spec fn form_outcome(f: ConnectionForm, r: Result<ConnectionConfig, String>) -> bool {
    match f.database_type {
        DatabaseType::Postgres => match parsed_u16(trimmed(f.port@)) {
            None => r matches Err(m) && m@ == "Postgres port must be a number"@,
            Some(n) => r matches Ok(ConnectionConfig::Postgres(c)) && {
                &&& c.host@ == trimmed(f.host@)
                &&& c.port == n
                &&& c.database_name@ == trimmed(f.database@)
                &&& c.username@ == trimmed(f.username@)
                &&& text_of(c.password) == optional_text(f.password@)
                &&& c.ssl_mode is None
                &&& c.extra_params is None
            },
        },
        DatabaseType::MySql => match parsed_u16(trimmed(f.port@)) {
            None => r matches Err(m) && m@ == "MySQL port must be a number"@,
            Some(n) => r matches Ok(ConnectionConfig::MySql(c)) && {
                &&& c.host@ == trimmed(f.host@)
                &&& c.port == n
                &&& c.database_name@ == trimmed(f.database@)
                &&& c.username@ == trimmed(f.username@)
                &&& text_of(c.password) == optional_text(f.password@)
                &&& c.extra_params is None
            },
        },
        DatabaseType::Sqlite => if trimmed(f.sqlite_path@).len() == 0 {
            r matches Err(m) && m@ == "SQLite file path is required"@
        } else {
            r matches Ok(ConnectionConfig::Sqlite(c)) && c.file_path@ == trimmed(f.sqlite_path@)
                && c.extra_params is None
        },
    }
}

proof fn lemma_port_text_accepted(port: Seq<char>, value: u16)
    requires
        port.len() == 4,
        forall|i: int| 0 <= i < 4 ==> is_digit(#[trigger] port[i]),
        digits_value(port) == value,
    ensures
        parsed_u16(trimmed(port)) == Some(value),
{
    assert(!is_white_space(port[0]));
    assert(!is_white_space(port.last()));
    assert(leading_white_space(port) == 0);
    assert(port.skip(0) =~= port);
    assert(trailing_white_space(port) == 0);
    assert(port.take(4) =~= port);
    assert(port[0] != '+');
}

/// Right after Postgres or MySQL is chosen, the form can be saved whatever
/// else is typed into it: the port filled in is accepted, as 5432 for
/// Postgres and 3306 for MySQL.
pub proof fn lemma_filled_in_port_is_accepted(f: ConnectionForm, r: Result<ConnectionConfig, String>)
    requires
        f.database_type == DatabaseType::Postgres ==> f.port@ == "5432"@,
        f.database_type == DatabaseType::MySql ==> f.port@ == "3306"@,
        f.database_type != DatabaseType::Sqlite,
        form_outcome(f, r),
    ensures
        f.database_type == DatabaseType::Postgres ==> (r matches Ok(ConnectionConfig::Postgres(c))
            && c.port == 5432),
        f.database_type == DatabaseType::MySql ==> (r matches Ok(ConnectionConfig::MySql(c))
            && c.port == 3306),
{
    reveal_strlit("5432");
    reveal_strlit("3306");
    reveal_with_fuel(digits_value, 5);
    if f.database_type == DatabaseType::Postgres {
        lemma_port_text_accepted("5432"@, 5432);
    } else {
        lemma_port_text_accepted("3306"@, 3306);
    }
}

impl ConnectionForm {
    /// A blank form, with Postgres chosen.
    pub fn new() -> (f: Self)
        ensures
            f.database_type == DatabaseType::Postgres,
            f.name@.len() == 0,
            f.host@.len() == 0,
            f.port@.len() == 0,
            f.username@.len() == 0,
            f.password@.len() == 0,
            f.database@.len() == 0,
            f.sqlite_path@.len() == 0,
    {
        ConnectionForm {
            database_type: DatabaseType::Postgres,
            name: String::new(),
            host: String::new(),
            port: String::new(),
            username: String::new(),
            password: String::new(),
            database: String::new(),
            sqlite_path: String::new(),
        }
    }

    /// Chooses the kind of database. Choosing Postgres or MySQL fills in its
    /// usual port; choosing SQLite leaves the port as it was.
    pub fn select_database_type(&mut self, database_type: DatabaseType)
        ensures
            final(self).database_type == database_type,
            database_type == DatabaseType::Postgres ==> final(self).port@ == "5432"@,
            database_type == DatabaseType::MySql ==> final(self).port@ == "3306"@,
            database_type == DatabaseType::Sqlite ==> final(self).port == old(self).port,
            final(self).name == old(self).name,
            final(self).host == old(self).host,
            final(self).username == old(self).username,
            final(self).password == old(self).password,
            final(self).database == old(self).database,
            final(self).sqlite_path == old(self).sqlite_path,
    {
        self.database_type = database_type;
        match database_type.default_port() {
            Some(port) => {
                self.port = String::from_str(port);
            },
            None => {},
        }
    }

    /// The inputs shown: the file path for SQLite, the server fields for
    /// the others.
    pub fn fields(&self) -> (f: FormFields)
        ensures
            f == (if self.database_type == DatabaseType::Sqlite {
                FormFields::SqlitePath
            } else {
                FormFields::Server
            }),
    {
        match self.database_type {
            DatabaseType::Sqlite => FormFields::SqlitePath,
            _ => FormFields::Server,
        }
    }

    /// The name given to the connection, if any.
    pub fn connection_name(&self) -> (n: Option<String>)
        ensures
            text_of(n) == optional_text(self.name@),
    {
        optional_input_value(self.name.as_str())
    }

    /// The settings the form describes, or why it describes none.
    pub fn config(&self) -> (r: Result<ConnectionConfig, String>)
        ensures
            form_outcome(*self, r),
    {
        connection_config_from_form(
            self.database_type,
            input_value(self.host.as_str()),
            input_value(self.port.as_str()),
            input_value(self.username.as_str()),
            optional_input_value(self.password.as_str()),
            input_value(self.database.as_str()),
            input_value(self.sqlite_path.as_str()),
        )
    }

    /// The connection that saving the form creates in the workspace
    /// `workspace_id`, never yet connected; or why the form cannot be saved.
    pub fn connection_to_save(&self, workspace_id: u128) -> (r: Result<CreateConnection, String>)
        ensures
            match r {
                Ok(c) => {
                    &&& c.workspace_id == workspace_id
                    &&& text_of(c.connection_name) == optional_text(self.name@)
                    &&& form_outcome(*self, Ok(c.connection_config))
                    &&& c.last_connected_at is None
                },
                Err(m) => form_outcome(*self, Err(m)),
            },
    {
        let connection_name = self.connection_name();
        match self.config() {
            Ok(connection_config) => Ok(
                CreateConnection {
                    workspace_id,
                    connection_name,
                    connection_config,
                    last_connected_at: None,
                },
            ),
            Err(m) => Err(m),
        }
    }
}

} // verus!
