//! The values that travel between the client and a database: bound
//! parameters, query results and schema metadata.

use vstd::prelude::*;
use crate::string_map::StringMap;

verus! {

/// A value bound to a statement parameter.
///
/// A floating-point number is carried as the bits of its `f64`
/// (`f64::to_bits`), which the driver turns back into the number.
#[derive(Clone, Debug, PartialEq, Eq)]
pub enum SqlValue {
    Null,
    Bool(bool),
    Integer(i64),
    Float(u64),
    Text(String),
}

impl SqlValue {
    /// A copy of the value.
    pub fn duplicate(&self) -> (r: SqlValue)
        ensures
            r == *self,
    {
        match self {
            SqlValue::Null => SqlValue::Null,
            SqlValue::Bool(b) => SqlValue::Bool(*b),
            SqlValue::Integer(i) => SqlValue::Integer(*i),
            SqlValue::Float(bits) => SqlValue::Float(*bits),
            SqlValue::Text(s) => SqlValue::Text(s.clone()),
        }
    }
}

/// The values of one row to write, by column name.
pub type CrudRow = StringMap<SqlValue>;

/// A condition `column = value`.
#[derive(Clone, Debug, PartialEq, Eq)]
pub struct CrudFilter {
    pub column: String,
    pub value: SqlValue,
}

/// A value read from a result set.
#[derive(Clone, Debug, PartialEq, Eq)]
pub enum QueryValue {
    Null,
    Bool(bool),
    Integer(i64),
    /// A floating-point number, as its decimal text.
    Float(String),
    Text(String),
}

/// A column of a result set.
#[derive(Clone, Debug, PartialEq, Eq)]
pub struct QueryColumn {
    pub name: String,
    pub data_type: String,
}

/// The outcome of a query: its columns, its rows by column name, and the
/// number of rows it changed.
#[derive(Debug, PartialEq, Eq)]
pub struct QueryResult {
    pub columns: Vec<QueryColumn>,
    pub rows: Vec<StringMap<QueryValue>>,
    pub rows_affected: u64,
}

/// A column of a table, as the database describes it.
#[derive(Clone, Debug, PartialEq, Eq)]
pub struct ColumnMetadata {
    pub name: String,
    pub data_type: String,
    pub is_nullable: bool,
    pub ordinal_position: i32,
}

/// A table and its columns.
#[derive(Clone, Debug, PartialEq, Eq)]
pub struct TableMetadata {
    pub name: String,
    pub columns: Vec<ColumnMetadata>,
}

/// A schema and its tables.
#[derive(Clone, Debug, PartialEq, Eq)]
pub struct SchemaMetadata {
    pub name: String,
    pub tables: Vec<TableMetadata>,
}

/// The schemas of a database.
#[derive(Clone, Debug, PartialEq, Eq)]
pub struct DatabaseMetadata {
    pub schemas: Vec<SchemaMetadata>,
}

/// A column, as plain values.
pub struct ColumnView {
    pub name: Seq<char>,
    pub data_type: Seq<char>,
    pub is_nullable: bool,
    pub ordinal_position: i32,
}

/// A table, as plain values.
pub struct TableView {
    pub name: Seq<char>,
    pub columns: Seq<ColumnView>,
}

/// A schema, as plain values.
pub struct SchemaView {
    pub name: Seq<char>,
    pub tables: Seq<TableView>,
}

impl View for ColumnMetadata {
    type V = ColumnView;

    open spec fn view(&self) -> ColumnView {
        ColumnView {
            name: self.name@,
            data_type: self.data_type@,
            is_nullable: self.is_nullable,
            ordinal_position: self.ordinal_position,
        }
    }
}

impl View for TableMetadata {
    type V = TableView;

    open spec fn view(&self) -> TableView {
        TableView { name: self.name@, columns: self.columns@.map_values(|c: ColumnMetadata| c@) }
    }
}

impl View for SchemaMetadata {
    type V = SchemaView;

    open spec fn view(&self) -> SchemaView {
        SchemaView { name: self.name@, tables: self.tables@.map_values(|t: TableMetadata| t@) }
    }
}

impl View for DatabaseMetadata {
    type V = Seq<SchemaView>;

    open spec fn view(&self) -> Seq<SchemaView> {
        self.schemas@.map_values(|s: SchemaMetadata| s@)
    }
}

} // verus!
