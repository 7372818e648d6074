//! Verified core of a desktop database client: SQL text building,
//! connection settings, schema metadata grouping and application state.

pub mod app_state;
pub mod assets;
pub mod config;
pub mod connection_form;
pub mod connection_list;
pub mod connections;
pub mod error;
pub mod icons;
pub mod ids;
pub mod local_data;
pub mod metadata;
pub mod placeholders;
pub mod plugins;
pub mod records;
pub mod registry;
pub mod sidebar;
pub mod results;
pub mod sql;
pub mod statement;
pub mod string_map;
pub mod text;
pub mod values;
pub mod workspace;
