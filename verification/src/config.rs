//! Connection settings for each kind of database, and the connection form
//! that produces them.

use vstd::prelude::*;
use vstd::string::StringExecFns;
use crate::app_state::{db_type_name, DbType};
use crate::text::{chars_of, decimal, digit_char, trim, trimmed};

verus! {

/// A JSON value carried through unchanged (`serde_json::Value`).
#[verifier::external_type_specification]
#[verifier::external_body]
pub struct ExJsonValue(serde_json::Value);

/// Settings of a Postgres connection.
#[derive(Clone, Debug, PartialEq, Eq)]
pub struct PostgresConfig {
    pub host: String,
    pub port: u16,
    pub database_name: String,
    pub username: String,
    pub password: Option<String>,
    pub ssl_mode: Option<String>,
    pub extra_params: Option<serde_json::Value>,
}

/// Settings of a MySQL connection.
#[derive(Clone, Debug, PartialEq, Eq)]
pub struct MySqlConfig {
    pub host: String,
    pub port: u16,
    pub database_name: String,
    pub username: String,
    pub password: Option<String>,
    pub extra_params: Option<serde_json::Value>,
}

/// Settings of a SQLite connection.
#[derive(Clone, Debug, PartialEq, Eq)]
pub struct SqliteConfig {
    pub file_path: String,
    pub extra_params: Option<serde_json::Value>,
}

/// The settings of a connection, by kind of database.
#[derive(Clone, Debug, PartialEq, Eq)]
pub enum ConnectionConfig {
    Postgres(PostgresConfig),
    MySql(MySqlConfig),
    Sqlite(SqliteConfig),
}

/// The kind of database a configuration is for.
pub open spec fn config_db_type(config: ConnectionConfig) -> DbType {
    match config {
        ConnectionConfig::Postgres(_) => DbType::Postgres,
        ConnectionConfig::MySql(_) => DbType::MySQL,
        ConnectionConfig::Sqlite(_) => DbType::SQLite,
    }
}

impl ConnectionConfig {
    /// The kind of database the settings are for.
    pub fn db_type(&self) -> (t: DbType)
        ensures
            t == config_db_type(*self),
    {
        match self {
            ConnectionConfig::Postgres(_) => DbType::Postgres,
            ConnectionConfig::MySql(_) => DbType::MySQL,
            ConnectionConfig::Sqlite(_) => DbType::SQLite,
        }
    }

    /// The name of the kind of database: `"postgres"`, `"mysql"` or
    /// `"sqlite"`.
    pub fn database_type(&self) -> (s: &'static str)
        ensures
            s@ == db_type_name(config_db_type(*self)),
    {
        self.db_type().name()
    }
}

// ---------------------------------------------------------------------------
// Port numbers.

/// The value of a sequence of decimal digits.
pub open spec fn digits_value(d: Seq<char>) -> nat
    decreases d.len(),
{
    if d.len() == 0 {
        0
    } else {
        digits_value(d.drop_last()) * 10 + ((d.last() as u32) - 48) as nat
    }
}

pub open spec fn is_digit(c: char) -> bool {
    '0' <= c && c <= '9'
}

pub open spec fn all_digits(d: Seq<char>) -> bool {
    forall|i: int| 0 <= i < d.len() ==> is_digit(#[trigger] d[i])
}

/// What `str::parse::<u16>` gives: an optional `+`, then at least one
/// decimal digit, with a value below 65536.
pub open spec fn parsed_u16(s: Seq<char>) -> Option<u16> {
    let d = if s.len() > 0 && s[0] == '+' {
        s.drop_first()
    } else {
        s
    };
    if d.len() > 0 && all_digits(d) && digits_value(d) <= 65535 {
        Some(digits_value(d) as u16)
    } else {
        None
    }
}

proof fn lemma_digits_value_grows(d: Seq<char>, i: int)
    requires
        0 <= i <= d.len(),
        all_digits(d),
    ensures
        digits_value(d.take(i)) <= digits_value(d),
    decreases d.len() - i,
{
    if i < d.len() {
        lemma_digits_value_grows(d, i + 1);
        assert(d.take(i + 1).drop_last() =~= d.take(i));
    } else {
        assert(d.take(i) =~= d);
    }
}

/// Reads a port number as `str::parse::<u16>` does.
pub fn parse_port(s: &str) -> (r: Option<u16>)
    ensures
        r == parsed_u16(s@),
{
    let cs = chars_of(s);
    let start: usize = if cs.len() > 0 && cs[0] == '+' {
        1
    } else {
        0
    };
    let ghost d = if s@.len() > 0 && s@[0] == '+' {
        s@.drop_first()
    } else {
        s@
    };
    assert(d =~= cs@.skip(start as int));
    if start == cs.len() {
        return None;
    }
    let mut value: u32 = 0;
    let mut i: usize = start;
    while i < cs.len()
        invariant
            cs@ == s@,
            start <= i <= cs.len(),
            d == cs@.skip(start as int),
            d == (if s@.len() > 0 && s@[0] == '+' {
                s@.drop_first()
            } else {
                s@
            }),
            value as nat == digits_value(d.take(i - start)),
            value <= 65535,
            all_digits(d.take(i - start)),
        decreases cs.len() - i,
    {
        let c = cs[i];
        assert(d[i - start] == c);
        assert(d.take(i - start + 1).drop_last() =~= d.take(i - start));
        if c < '0' || c > '9' {
            assert(!all_digits(d));
            return None;
        }
        let digit: u32 = (c as u32) - 48;
        value = value * 10 + digit;
        assert(all_digits(d.take(i - start + 1)));
        if value > 65535 {
            proof {
                if all_digits(d) {
                    lemma_digits_value_grows(d, i - start + 1);
                }
            }
            return None;
        }
        i = i + 1;
    }
    assert(d.take(i - start) =~= d);
    Some(value as u16)
}

// ---------------------------------------------------------------------------
// The connection form.

/// The kinds of database the connection form offers.
#[derive(Clone, Copy, Debug, PartialEq, Eq, Structural)]
pub enum DatabaseType {
    Postgres,
    MySql,
    Sqlite,
}

impl DatabaseType {
    /// The label shown in the form.
    pub fn label(self) -> (s: &'static str)
        ensures
            s@ == match self {
                DatabaseType::Postgres => "Postgres"@,
                DatabaseType::MySql => "MySQL"@,
                DatabaseType::Sqlite => "Sqlite"@,
            },
    {
        match self {
            DatabaseType::Postgres => "Postgres",
            DatabaseType::MySql => "MySQL",
            DatabaseType::Sqlite => "Sqlite",
        }
    }

    /// The port the form fills in when this kind is chosen; a SQLite file
    /// has none, and the port field is then left as it is.
    pub fn default_port(self) -> (p: Option<&'static str>)
        ensures
            match self {
                DatabaseType::Postgres => p matches Some(s) && s@ == "5432"@,
                DatabaseType::MySql => p matches Some(s) && s@ == "3306"@,
                DatabaseType::Sqlite => p is None,
            },
    {
        match self {
            DatabaseType::Postgres => Some("5432"),
            DatabaseType::MySql => Some("3306"),
            DatabaseType::Sqlite => None,
        }
    }
}

/// The settings that the connection form describes, or the message shown
/// when it describes none: a port that is no number, or a missing SQLite
/// file path.
pub fn connection_config_from_form(
    database_type: DatabaseType,
    host: String,
    port: String,
    username: String,
    password: Option<String>,
    database_name: String,
    sqlite_path: String,
) -> (r: Result<ConnectionConfig, String>)
    ensures
        database_type == DatabaseType::Postgres ==> match parsed_u16(port@) {
            None => r matches Err(m) && m@ == "Postgres port must be a number"@,
            Some(n) => r == Ok::<ConnectionConfig, String>(
                ConnectionConfig::Postgres(
                    PostgresConfig {
                        host,
                        port: n,
                        database_name,
                        username,
                        password,
                        ssl_mode: None,
                        extra_params: None,
                    },
                ),
            ),
        },
        database_type == DatabaseType::MySql ==> match parsed_u16(port@) {
            None => r matches Err(m) && m@ == "MySQL port must be a number"@,
            Some(n) => r == Ok::<ConnectionConfig, String>(
                ConnectionConfig::MySql(
                    MySqlConfig { host, port: n, database_name, username, password, extra_params: None },
                ),
            ),
        },
        database_type == DatabaseType::Sqlite ==> if sqlite_path@.len() == 0 {
            r matches Err(m) && m@ == "SQLite file path is required"@
        } else {
            r == Ok::<ConnectionConfig, String>(
                ConnectionConfig::Sqlite(SqliteConfig { file_path: sqlite_path, extra_params: None }),
            )
        },
{
    match database_type {
        DatabaseType::Postgres => match parse_port(port.as_str()) {
            None => Err(String::from_str("Postgres port must be a number")),
            Some(n) => Ok(
                ConnectionConfig::Postgres(
                    PostgresConfig {
                        host,
                        port: n,
                        database_name,
                        username,
                        password,
                        ssl_mode: None,
                        extra_params: None,
                    },
                ),
            ),
        },
        DatabaseType::MySql => match parse_port(port.as_str()) {
            None => Err(String::from_str("MySQL port must be a number")),
            Some(n) => Ok(
                ConnectionConfig::MySql(
                    MySqlConfig { host, port: n, database_name, username, password, extra_params: None },
                ),
            ),
        },
        DatabaseType::Sqlite => {
            if sqlite_path.as_str().is_empty() {
                return Err(String::from_str("SQLite file path is required"));
            }
            Ok(ConnectionConfig::Sqlite(SqliteConfig { file_path: sqlite_path, extra_params: None }))
        },
    }
}

proof fn lemma_decimal_digits(n: nat)
    ensures
        decimal(n).len() > 0,
        all_digits(decimal(n)),
        digits_value(decimal(n)) == n,
        decimal(n)[0] != '+',
    decreases n,
{
    let c = digit_char(n % 10);
    assert((c as u32) == 48 + n % 10);
    if n >= 10 {
        lemma_decimal_digits(n / 10);
        let d = decimal(n);
        assert(d.drop_last() =~= decimal(n / 10));
        assert(d[0] == decimal(n / 10)[0]);
        assert(d.last() == c);
        assert(digits_value(d) == digits_value(d.drop_last()) * 10 + ((d.last() as u32) - 48) as nat);
        assert((n / 10) * 10 + n % 10 == n) by (nonlinear_arith);
    } else {
        let d = decimal(n);
        assert(d.drop_last() =~= Seq::<char>::empty());
        assert(d.last() == c);
        assert(digits_value(d) == digits_value(d.drop_last()) * 10 + ((d.last() as u32) - 48) as nat);
    }
}

/// A port written in decimal reads back as the same port: what the
/// connection list shows of a port, the form accepts as that port.
pub proof fn lemma_port_text_reads_back(port: u16)
    ensures
        parsed_u16(decimal(port as nat)) == Some(port),
{
    lemma_decimal_digits(port as nat);
}

/// The value of a form field: its text without surrounding white space.
pub fn input_value(raw: &str) -> (v: String)
    ensures
        v@ == trimmed(raw@),
{
    trim(raw)
}

/// The value of an optional form field: none when it holds only white space.
pub fn optional_input_value(raw: &str) -> (v: Option<String>)
    ensures
        trimmed(raw@).len() == 0 ==> v is None,
        trimmed(raw@).len() > 0 ==> (v matches Some(s) && s@ == trimmed(raw@)),
{
    let value = input_value(raw);
    if value.as_str().is_empty() {
        None
    } else {
        Some(value)
    }
}

} // verus!
