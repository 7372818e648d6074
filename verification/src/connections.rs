//! Saved connections: the record written when a connection is created, and
//! how an update changes it.
//!
//! The settings are stored as JSON; the caller turns them into JSON before
//! handing them over.

use vstd::prelude::*;
use crate::config::ConnectionConfig;
use crate::ids::new_random_id;
use crate::records::ConnectionRecord;

verus! {

/// What is given to save a new connection.
#[derive(Clone, Debug, PartialEq, Eq)]
pub struct CreateConnection {
    pub workspace_id: u128,
    pub connection_name: Option<String>,
    pub connection_config: ConnectionConfig,
    pub last_connected_at: Option<chrono::NaiveDateTime>,
}

/// What to change on a saved connection; `None` leaves a field as it is.
#[derive(Clone, Debug, PartialEq, Eq)]
pub struct UpdateConnection {
    pub connection_name: Option<Option<String>>,
    pub connection_config: Option<ConnectionConfig>,
    pub last_connected_at: Option<Option<chrono::NaiveDateTime>>,
}

/// The saved-connection service.
#[derive(Clone, Copy, Debug, PartialEq, Eq)]
pub struct ConnectionService;

impl ConnectionService {
    /// The record of a new connection with id `id`, created and updated at
    /// `now`; `config_json` is its settings as JSON.
    pub fn new_connection_record(
        id: u128,
        input: CreateConnection,
        config_json: serde_json::Value,
        now: chrono::NaiveDateTime,
    ) -> (r: ConnectionRecord)
        ensures
            r.id == id,
            r.workspace_id == input.workspace_id,
            r.connection_name == input.connection_name,
            r.connection_config == config_json,
            r.last_connected_at == input.last_connected_at,
            r.created_at == Some(now),
            r.updated_at == Some(now),
    {
        ConnectionRecord {
            id,
            workspace_id: input.workspace_id,
            connection_name: input.connection_name,
            connection_config: config_json,
            last_connected_at: input.last_connected_at,
            created_at: Some(now),
            updated_at: Some(now),
        }
    }

    /// The record of a new connection, with a fresh random (version 4) id,
    /// created and updated at `now`; `config_json` is its settings as JSON.
    pub fn create_connection(
        input: CreateConnection,
        config_json: serde_json::Value,
        now: chrono::NaiveDateTime,
    ) -> (r: ConnectionRecord)
        ensures
            (r.id as nat / 0x1_0000_0000_0000_0000_000) % 16 == 4,
            (r.id as nat / 0x4000_0000_0000_0000) % 4 == 2,
            r.workspace_id == input.workspace_id,
            r.connection_name == input.connection_name,
            r.connection_config == config_json,
            r.last_connected_at == input.last_connected_at,
            r.created_at == Some(now),
            r.updated_at == Some(now),
    {
        Self::new_connection_record(new_random_id(), input, config_json, now)
    }

    /// `record` with the changes of `input` made and updated at `now`;
    /// `config_json` is the new settings as JSON, given exactly when the
    /// update changes them.
    pub fn update_connection(
        record: ConnectionRecord,
        input: UpdateConnection,
        config_json: Option<serde_json::Value>,
        now: chrono::NaiveDateTime,
    ) -> (r: ConnectionRecord)
        requires
            input.connection_config is Some <==> config_json is Some,
        ensures
            r.id == record.id,
            r.workspace_id == record.workspace_id,
            r.connection_name == match input.connection_name {
                Some(n) => n,
                None => record.connection_name,
            },
            r.connection_config == match config_json {
                Some(j) => j,
                None => record.connection_config,
            },
            r.last_connected_at == match input.last_connected_at {
                Some(t) => t,
                None => record.last_connected_at,
            },
            r.created_at == record.created_at,
            r.updated_at == Some(now),
    {
        let mut record = record;
        match input.connection_name {
            Some(n) => {
                record.connection_name = n;
            },
            None => {},
        }
        match config_json {
            Some(j) => {
                record.connection_config = j;
            },
            None => {},
        }
        match input.last_connected_at {
            Some(t) => {
                record.last_connected_at = t;
            },
            None => {},
        }
        record.updated_at = Some(now);
        record
    }

    /// Whether a delete removed the connection.
    pub fn connection_deleted(rows_affected: u64) -> (b: bool)
        ensures
            b == (rows_affected > 0),
    {
        rows_affected > 0
    }
}

} // verus!
