//! Records of the application's own database: workspaces and saved
//! connections.

use vstd::prelude::*;

verus! {

/// A date and time without time zone (`chrono::NaiveDateTime`), carried
/// through unchanged.
#[verifier::external_type_specification]
#[verifier::external_body]
pub struct ExNaiveDateTime(chrono::NaiveDateTime);

/// A workspace.
#[derive(Clone, Debug, PartialEq, Eq)]
pub struct Workspace {
    pub id: u128,
    pub name: String,
    pub is_opened: Option<bool>,
    pub last_opened: Option<chrono::NaiveDateTime>,
    pub created_at: Option<chrono::NaiveDateTime>,
    pub updated_at: Option<chrono::NaiveDateTime>,
}

/// A saved connection; its settings are stored as JSON.
#[derive(Debug, PartialEq, Eq)]
pub struct ConnectionRecord {
    pub id: u128,
    pub workspace_id: u128,
    pub connection_name: Option<String>,
    pub connection_config: serde_json::Value,
    pub last_connected_at: Option<chrono::NaiveDateTime>,
    pub created_at: Option<chrono::NaiveDateTime>,
    pub updated_at: Option<chrono::NaiveDateTime>,
}

} // verus!
