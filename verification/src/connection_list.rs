//! The connection list of the side bar: what each saved connection shows.

use vstd::prelude::*;
use vstd::string::StringExecFns;
use crate::app_state::db_type_name;
use crate::config::{config_db_type, ConnectionConfig};
use crate::ids::{id_text, id_to_text};
use crate::text::{decimal, is_blank, push_char, push_decimal, push_str, str_is_blank};

verus! {

/// One entry of the connection list.
#[derive(Clone, Debug, PartialEq, Eq)]
pub struct ConnectionListItem {
    pub id: String,
    pub name: String,
    pub database_type: String,
    pub summary: String,
}

/// The name shown for a connection that has none: its database name, or
/// for SQLite its file path.
pub open spec fn fallback_name(config: ConnectionConfig) -> Seq<char> {
    match config {
        ConnectionConfig::Postgres(c) => c.database_name@,
        ConnectionConfig::MySql(c) => c.database_name@,
        ConnectionConfig::Sqlite(c) => c.file_path@,
    }
}

/// `host:port/database`, or for SQLite the file path.
pub open spec fn summary_text(config: ConnectionConfig) -> Seq<char> {
    match config {
        ConnectionConfig::Postgres(c) => c.host@ + seq![':'] + decimal(c.port as nat) + seq!['/']
            + c.database_name@,
        ConnectionConfig::MySql(c) => c.host@ + seq![':'] + decimal(c.port as nat) + seq!['/']
            + c.database_name@,
        ConnectionConfig::Sqlite(c) => c.file_path@,
    }
}

/// The name to show for a connection that has no usable name.
pub fn fallback_connection_name(config: &ConnectionConfig) -> (s: String)
    ensures
        s@ == fallback_name(*config),
{
    match config {
        ConnectionConfig::Postgres(c) => c.database_name.clone(),
        ConnectionConfig::MySql(c) => c.database_name.clone(),
        ConnectionConfig::Sqlite(c) => c.file_path.clone(),
    }
}

/// Where a connection points: `host:port/database`, or the SQLite file.
pub fn connection_summary(config: &ConnectionConfig) -> (s: String)
    ensures
        s@ == summary_text(*config),
{
    match config {
        ConnectionConfig::Postgres(c) => {
            let mut s = c.host.clone();
            push_char(&mut s, ':');
            push_decimal(&mut s, c.port as u32);
            push_char(&mut s, '/');
            push_str(&mut s, c.database_name.as_str());
            s
        },
        ConnectionConfig::MySql(c) => {
            let mut s = c.host.clone();
            push_char(&mut s, ':');
            push_decimal(&mut s, c.port as u32);
            push_char(&mut s, '/');
            push_str(&mut s, c.database_name.as_str());
            s
        },
        ConnectionConfig::Sqlite(c) => c.file_path.clone(),
    }
}

/// The list entry of a saved connection. `config` is its settings, or
/// `None` where the stored settings could not be read. A name that is only
/// white space counts as no name.
pub fn connection_list_item(
    id: u128,
    connection_name: Option<String>,
    config: Option<ConnectionConfig>,
) -> (item: ConnectionListItem)
    ensures
        item.id@ == id_text(id),
        match config {
            Some(c) => {
                &&& item.name@ == match connection_name {
                    Some(n) if !is_blank(n@) => n@,
                    _ => fallback_name(c),
                }
                &&& item.database_type@ == db_type_name(config_db_type(c))
                &&& item.summary@ == summary_text(c)
            },
            None => {
                &&& item.name@ == match connection_name {
                    Some(n) => n@,
                    None => "Invalid connection"@,
                }
                &&& item.database_type@ == "unknown"@
                &&& item.summary@ == "Invalid config"@
            },
        },
{
    let id_text = id_to_text(id);
    match config {
        Some(c) => {
            let database_type = String::from_str(c.database_type());
            let summary = connection_summary(&c);
            let name = match connection_name {
                Some(n) => {
                    if str_is_blank(n.as_str()) {
                        fallback_connection_name(&c)
                    } else {
                        n
                    }
                },
                None => fallback_connection_name(&c),
            };
            ConnectionListItem { id: id_text, name, database_type, summary }
        },
        None => {
            let name = match connection_name {
                Some(n) => n,
                None => String::from_str("Invalid connection"),
            };
            ConnectionListItem {
                id: id_text,
                name,
                database_type: String::from_str("unknown"),
                summary: String::from_str("Invalid config"),
            }
        },
    }
}

} // verus!
