//! Errors of the database plugins.

use vstd::prelude::*;
use vstd::string::StringExecFns;
use crate::app_state::{db_type_name, DbType};
use crate::sql::SqlError;
use crate::text::push_str;

verus! {

/// Why a plugin refused a request.
#[derive(Clone, Debug, PartialEq, Eq)]
pub enum PluginError {
    /// The connection settings are for another kind of database.
    InvalidConfig(DbType),
    /// The connection handle is for another kind of database.
    InvalidHandle(DbType),
    /// An insert was asked with no column.
    EmptyInsertRow,
    /// An update was asked with no column to set.
    EmptyUpdateValues,
    /// A table, schema or column name was empty.
    EmptyIdentifier,
    /// No plugin is registered under this database type name.
    PluginUnavailable(String),
}

/// The message of an error, as the user sees it.
pub open spec fn plugin_error_message(e: PluginError) -> Seq<char> {
    match e {
        PluginError::InvalidConfig(t) => "invalid config for "@ + db_type_name(t) + " plugin"@,
        PluginError::InvalidHandle(t) => "invalid "@ + db_type_name(t) + " connection handle"@,
        PluginError::EmptyInsertRow => "insert row cannot be empty"@,
        PluginError::EmptyUpdateValues => "update values cannot be empty"@,
        PluginError::EmptyIdentifier => "identifier cannot be empty"@,
        PluginError::PluginUnavailable(name) => name@ + " plugin is not available"@,
    }
}

impl PluginError {
    /// The message of the error.
    pub fn message(&self) -> (m: String)
        ensures
            m@ == plugin_error_message(*self),
    {
        match self {
            PluginError::InvalidConfig(t) => {
                let mut m = String::from_str("invalid config for ");
                push_str(&mut m, t.name());
                push_str(&mut m, " plugin");
                m
            },
            PluginError::InvalidHandle(t) => {
                let mut m = String::from_str("invalid ");
                push_str(&mut m, t.name());
                push_str(&mut m, " connection handle");
                m
            },
            PluginError::EmptyInsertRow => String::from_str("insert row cannot be empty"),
            PluginError::EmptyUpdateValues => String::from_str("update values cannot be empty"),
            PluginError::EmptyIdentifier => String::from_str("identifier cannot be empty"),
            PluginError::PluginUnavailable(name) => {
                let mut m = name.clone();
                push_str(&mut m, " plugin is not available");
                m
            },
        }
    }
}

impl SqlError {
    /// The plugin error for an identifier that could not be quoted.
    pub fn to_plugin_error(self) -> (e: PluginError)
        ensures
            e == PluginError::EmptyIdentifier,
    {
        PluginError::EmptyIdentifier
    }
}

} // verus!
