//! SQL statements for writing and reading table rows.
//!
//! A statement is SQL text with a `?` placeholder for each parameter, and
//! the parameters in the order of their placeholders. Values never enter the
//! SQL text; only quoted identifiers do.

use vstd::prelude::*;
use crate::sql::{qualified, qualified_table, quote_identifier, quoted, SqlError};
use crate::text::push_str;
use crate::error::PluginError;
use crate::values::{CrudFilter, CrudRow, SqlValue};

verus! {

/// SQL text and the values bound to its placeholders, in order.
#[derive(Clone, Debug, PartialEq, Eq)]
pub struct Statement {
    pub sql: String,
    pub params: Vec<SqlValue>,
}

/// `parts` separated by `sep`.
pub open spec fn joined(parts: Seq<Seq<char>>, sep: Seq<char>) -> Seq<char>
    decreases parts.len(),
{
    if parts.len() == 0 {
        Seq::empty()
    } else if parts.len() == 1 {
        parts[0]
    } else {
        joined(parts.drop_last(), sep) + sep + parts.last()
    }
}

proof fn lemma_joined_step(parts: Seq<Seq<char>>, sep: Seq<char>, i: int)
    requires
        0 <= i < parts.len(),
    ensures
        joined(parts.take(i + 1), sep) == if i == 0 {
            parts[0]
        } else {
            joined(parts.take(i), sep) + sep + parts[i]
        },
{
    assert(parts.take(i + 1).drop_last() =~= parts.take(i));
    assert(parts.take(i + 1).last() == parts[i]);
}

/// Some name in `names` is empty.
pub open spec fn has_empty(names: Seq<Seq<char>>) -> bool {
    exists|i: int| 0 <= i < names.len() && #[trigger] names[i].len() == 0
}

/// Each name quoted.
pub open spec fn quoted_names(names: Seq<Seq<char>>, quote: char) -> Seq<Seq<char>> {
    names.map_values(|n: Seq<char>| quoted(n, quote))
}

/// Each name quoted and compared with a placeholder: `"name" = ?`.
pub open spec fn assignments(names: Seq<Seq<char>>, quote: char) -> Seq<Seq<char>> {
    names.map_values(|n: Seq<char>| quoted(n, quote) + " = ?"@)
}

/// `n` placeholders.
pub open spec fn placeholders(n: nat) -> Seq<Seq<char>> {
    Seq::new(n, |i: int| "?"@)
}

/// ` WHERE "a" = ? AND "b" = ?`, or nothing when there is no condition.
pub open spec fn where_clause(columns: Seq<Seq<char>>, quote: char) -> Seq<char> {
    if columns.len() == 0 {
        Seq::empty()
    } else {
        " WHERE "@ + joined(assignments(columns, quote), " AND "@)
    }
}

/// The columns that the filters compare.
pub open spec fn filter_columns(filters: Seq<CrudFilter>) -> Seq<Seq<char>> {
    filters.map_values(|f: CrudFilter| f.column@)
}

/// The values that the filters compare with.
pub open spec fn filter_values(filters: Seq<CrudFilter>) -> Seq<SqlValue> {
    filters.map_values(|f: CrudFilter| f.value)
}

/// The text of a schema argument.
pub open spec fn schema_text(schema: Option<&str>) -> Option<Seq<char>> {
    match schema {
        Some(s) => Some(s@),
        None => None,
    }
}

/// `INSERT INTO t ("a", "b") VALUES (?, ?)`.
pub open spec fn insert_sql(table: Seq<char>, columns: Seq<Seq<char>>, quote: char) -> Seq<char> {
    "INSERT INTO "@ + table + " ("@ + joined(quoted_names(columns, quote), ", "@) + ") VALUES ("@
        + joined(placeholders(columns.len()), ", "@) + ")"@
}

/// `UPDATE t SET "a" = ?, "b" = ?` and the conditions.
pub open spec fn update_sql(
    table: Seq<char>,
    columns: Seq<Seq<char>>,
    conditions: Seq<Seq<char>>,
    quote: char,
) -> Seq<char> {
    "UPDATE "@ + table + " SET "@ + joined(assignments(columns, quote), ", "@) + where_clause(
        conditions,
        quote,
    )
}

/// `DELETE FROM t` and the conditions.
pub open spec fn delete_sql(table: Seq<char>, conditions: Seq<Seq<char>>, quote: char) -> Seq<char> {
    "DELETE FROM "@ + table + where_clause(conditions, quote)
}

/// `SELECT * FROM t`, the conditions, and ` LIMIT ?` when a limit is given.
pub open spec fn select_sql(
    table: Seq<char>,
    conditions: Seq<Seq<char>>,
    limited: bool,
    quote: char,
) -> Seq<char> {
    "SELECT * FROM "@ + table + where_clause(conditions, quote) + if limited {
        " LIMIT ?"@
    } else {
        Seq::empty()
    }
}

/// The parameters of a select: the filter values, then the limit.
pub open spec fn select_params(filters: Seq<CrudFilter>, limit: Option<u32>) -> Seq<SqlValue> {
    match limit {
        Some(n) => filter_values(filters).push(SqlValue::Integer(n as i64)),
        None => filter_values(filters),
    }
}

/// A statement as plain values: its SQL text and its parameters.
pub open spec fn statement_view(r: Result<Statement, PluginError>) -> Result<(Seq<char>, Seq<SqlValue>), PluginError> {
    match r {
        Ok(st) => Ok((st.sql@, st.params@)),
        Err(e) => Err(e),
    }
}

/// What inserting a row with these keys and values gives.
pub open spec fn insert_outcome(
    schema: Option<Seq<char>>,
    table: Seq<char>,
    keys: Seq<Seq<char>>,
    values: Seq<SqlValue>,
    quote: char,
) -> Result<(Seq<char>, Seq<SqlValue>), PluginError> {
    if keys.len() == 0 {
        Err(PluginError::EmptyInsertRow)
    } else if table.len() == 0 || has_empty(keys) {
        Err(PluginError::EmptyIdentifier)
    } else {
        Ok((insert_sql(qualified(schema, table, quote), keys, quote), values))
    }
}

/// What setting these columns on the rows that meet the filters gives.
pub open spec fn update_outcome(
    schema: Option<Seq<char>>,
    table: Seq<char>,
    keys: Seq<Seq<char>>,
    values: Seq<SqlValue>,
    filters: Seq<CrudFilter>,
    quote: char,
) -> Result<(Seq<char>, Seq<SqlValue>), PluginError> {
    if keys.len() == 0 {
        Err(PluginError::EmptyUpdateValues)
    } else if table.len() == 0 || has_empty(keys) || has_empty(filter_columns(filters)) {
        Err(PluginError::EmptyIdentifier)
    } else {
        Ok(
            (
                update_sql(qualified(schema, table, quote), keys, filter_columns(filters), quote),
                values + filter_values(filters),
            ),
        )
    }
}

/// What deleting the rows that meet the filters gives.
pub open spec fn delete_outcome(
    schema: Option<Seq<char>>,
    table: Seq<char>,
    filters: Seq<CrudFilter>,
    quote: char,
) -> Result<(Seq<char>, Seq<SqlValue>), PluginError> {
    if table.len() == 0 || has_empty(filter_columns(filters)) {
        Err(PluginError::EmptyIdentifier)
    } else {
        Ok((delete_sql(qualified(schema, table, quote), filter_columns(filters), quote), filter_values(filters)))
    }
}

/// What reading the rows that meet the filters gives.
pub open spec fn select_outcome(
    schema: Option<Seq<char>>,
    table: Seq<char>,
    filters: Seq<CrudFilter>,
    limit: Option<u32>,
    quote: char,
) -> Result<(Seq<char>, Seq<SqlValue>), PluginError> {
    if table.len() == 0 || has_empty(filter_columns(filters)) {
        Err(PluginError::EmptyIdentifier)
    } else {
        Ok(
            (
                select_sql(qualified(schema, table, quote), filter_columns(filters), limit is Some, quote),
                select_params(filters, limit),
            ),
        )
    }
}

/// Appends the quoted row keys separated by `, `.
fn push_column_list(out: &mut String, row: &CrudRow, quote: char) -> (r: Result<(), SqlError>)
    ensures
        r is Err <==> has_empty(row.keys()),
        r is Ok ==> final(out)@ == old(out)@ + joined(quoted_names(row.keys(), quote), ", "@),
{
    let ghost parts = quoted_names(row.keys(), quote);
    let ghost start = out@;
    let n = row.len();
    let mut i: usize = 0;
    while i < n
        invariant
            n == row.keys().len(),
            i <= n,
            parts == quoted_names(row.keys(), quote),
            out@ == start + joined(parts.take(i as int), ", "@),
            forall|j: int| 0 <= j < i ==> #[trigger] row.keys()[j].len() > 0,
            start == old(out)@,
        decreases n - i,
    {
        let name = quote_identifier(row.key_at(i).as_str(), quote);
        match name {
            Err(e) => {
                return Err(e);
            },
            Ok(name) => {
                proof {
                    lemma_joined_step(parts, ", "@, i as int);
                }
                if i > 0 {
                    push_str(out, ", ");
                }
                push_str(out, name.as_str());
                assert(out@ =~= start + joined(parts.take(i + 1), ", "@));
            },
        }
        i = i + 1;
    }
    assert(parts.take(n as int) =~= parts);
    Ok(())
}

/// Appends `n` placeholders separated by `, `.
fn push_placeholders(out: &mut String, n: usize)
    ensures
        final(out)@ == old(out)@ + joined(placeholders(n as nat), ", "@),
{
    let ghost parts = placeholders(n as nat);
    let mut i: usize = 0;
    while i < n
        invariant
            i <= n,
            parts == placeholders(n as nat),
            out@ == old(out)@ + joined(parts.take(i as int), ", "@),
        decreases n - i,
    {
        proof {
            lemma_joined_step(parts, ", "@, i as int);
        }
        if i > 0 {
            push_str(out, ", ");
        }
        push_str(out, "?");
        assert(out@ =~= old(out)@ + joined(parts.take(i + 1), ", "@));
        i = i + 1;
    }
    assert(parts.take(n as int) =~= parts);
}

/// Appends `"a" = ?, "b" = ?` for the row keys, and binds the row values.
fn push_assignments(out: &mut String, params: &mut Vec<SqlValue>, row: &CrudRow, quote: char) -> (r:
    Result<(), SqlError>)
    ensures
        r is Err <==> has_empty(row.keys()),
        r is Ok ==> final(out)@ == old(out)@ + joined(assignments(row.keys(), quote), ", "@),
        r is Ok ==> final(params)@ == old(params)@ + row.values(),
{
    let ghost parts = assignments(row.keys(), quote);
    proof {
        row.lemma_lengths();
    }
    let n = row.len();
    let mut i: usize = 0;
    while i < n
        invariant
            n == row.keys().len(),
            n == row.values().len(),
            i <= n,
            parts == assignments(row.keys(), quote),
            out@ == old(out)@ + joined(parts.take(i as int), ", "@),
            params@ == old(params)@ + row.values().take(i as int),
            forall|j: int| 0 <= j < i ==> #[trigger] row.keys()[j].len() > 0,
        decreases n - i,
    {
        let name = quote_identifier(row.key_at(i).as_str(), quote);
        match name {
            Err(e) => {
                return Err(e);
            },
            Ok(name) => {
                proof {
                    lemma_joined_step(parts, ", "@, i as int);
                }
                if i > 0 {
                    push_str(out, ", ");
                }
                push_str(out, name.as_str());
                push_str(out, " = ?");
                assert(out@ =~= old(out)@ + joined(parts.take(i + 1), ", "@));
                params.push(row.value_at(i).duplicate());
                assert(params@ =~= old(params)@ + row.values().take(i + 1));
            },
        }
        i = i + 1;
    }
    assert(parts.take(n as int) =~= parts);
    assert(row.values().take(n as int) =~= row.values());
    Ok(())
}

/// The index of the first empty name; the number of names when none is.
pub open spec fn first_empty(names: Seq<Seq<char>>) -> int
    decreases names.len(),
{
    if names.len() == 0 || names[0].len() == 0 {
        0
    } else {
        1 + first_empty(names.drop_first())
    }
}

/// What appending conditions leaves when the column at `k` is empty:
/// ` WHERE `, then each earlier condition followed by ` AND `.
pub open spec fn partial_where(columns: Seq<Seq<char>>, k: int, quote: char) -> Seq<char> {
    " WHERE "@ + if k == 0 {
        Seq::<char>::empty()
    } else {
        joined(assignments(columns.take(k), quote), " AND "@) + " AND "@
    }
}

proof fn lemma_first_empty(names: Seq<Seq<char>>, i: int)
    requires
        0 <= i < names.len(),
        forall|j: int| 0 <= j < i ==> #[trigger] names[j].len() > 0,
        names[i].len() == 0,
    ensures
        first_empty(names) == i,
    decreases i,
{
    if i > 0 {
        lemma_first_empty(names.drop_first(), i - 1);
    }
}

/// Appends the conditions ` WHERE "a" = ? AND ...` and binds their values.
/// At an empty column it stops, leaving ` WHERE ` and the conditions before
/// it, each followed by ` AND `, with their values bound.
pub fn push_filters(out: &mut String, params: &mut Vec<SqlValue>, filters: &[CrudFilter], quote: char) -> (r:
    Result<(), SqlError>)
    ensures
        r is Err <==> has_empty(filter_columns(filters@)),
        r is Ok ==> final(out)@ == old(out)@ + where_clause(filter_columns(filters@), quote),
        r is Ok ==> final(params)@ == old(params)@ + filter_values(filters@),
        r is Err ==> final(out)@ == old(out)@ + partial_where(
            filter_columns(filters@),
            first_empty(filter_columns(filters@)),
            quote,
        ),
        r is Err ==> final(params)@ == old(params)@ + filter_values(filters@).take(
            first_empty(filter_columns(filters@)),
        ),
{
    let ghost columns = filter_columns(filters@);
    let ghost parts = assignments(columns, quote);
    if filters.len() == 0 {
        assert(params@ =~= old(params)@ + filter_values(filters@));
        assert(out@ =~= old(out)@ + where_clause(columns, quote));
        return Ok(());
    }
    push_str(out, " WHERE ");
    let ghost start = out@;
    let n = filters.len();
    let mut i: usize = 0;
    while i < n
        invariant
            n == filters@.len(),
            n > 0,
            i <= n,
            columns == filter_columns(filters@),
            parts == assignments(columns, quote),
            start == old(out)@ + " WHERE "@,
            out@ == start + joined(parts.take(i as int), " AND "@) + if 0 < i < n {
                " AND "@
            } else {
                Seq::<char>::empty()
            },
            params@ == old(params)@ + filter_values(filters@).take(i as int),
            forall|j: int| 0 <= j < i ==> #[trigger] columns[j].len() > 0,
        decreases n - i,
    {
        let filter = &filters[i];
        let name = quote_identifier(filter.column.as_str(), quote);
        match name {
            Err(e) => {
                assert(columns[i as int].len() == 0);
                proof {
                    lemma_first_empty(columns, i as int);
                    assert(assignments(columns.take(i as int), quote) =~= parts.take(i as int));
                    if i == 0 {
                        assert(parts.take(0) =~= Seq::<Seq<char>>::empty());
                    }
                }
                assert(out@ =~= old(out)@ + partial_where(columns, i as int, quote));
                return Err(e);
            },
            Ok(name) => {
                proof {
                    lemma_joined_step(parts, " AND "@, i as int);
                }
                push_str(out, name.as_str());
                push_str(out, " = ?");
                assert(out@ =~= start + joined(parts.take(i + 1), " AND "@));
                if i + 1 < n {
                    push_str(out, " AND ");
                }
                params.push(filter.value.duplicate());
                assert(params@ =~= old(params)@ + filter_values(filters@).take(i + 1));
            },
        }
        i = i + 1;
    }
    assert(parts.take(n as int) =~= parts);
    assert(filter_values(filters@).take(n as int) =~= filter_values(filters@));
    assert(out@ =~= old(out)@ + where_clause(columns, quote));
    Ok(())
}

/// Quotes the table name, with its schema when one is given.
fn table_text(schema: Option<&str>, table: &str, quote: char) -> (r: Result<String, PluginError>)
    ensures
        r is Err <==> table@.len() == 0,
        r matches Err(e) ==> e == PluginError::EmptyIdentifier,
        r matches Ok(t) ==> t@ == qualified(schema_text(schema), table@, quote),
{
    match qualified_table(schema, table, quote) {
        Ok(t) => Ok(t),
        Err(e) => Err(e.to_plugin_error()),
    }
}

/// The statement that inserts one row: its keys name the columns, and its
/// values are bound in the same order. Refused when the row is empty, and
/// when the table name or a column name is empty.
pub fn insert_statement(schema: Option<&str>, table: &str, row: &CrudRow, quote: char) -> (r: Result<
    Statement,
    PluginError,
>)
    ensures
        statement_view(r) == insert_outcome(schema_text(schema), table@, row.keys(), row.values(), quote),
        r matches Ok(st) ==> forall|i: int| 0 <= i < row.keys().len() ==> #[trigger] st.params@[i] == row@[row.keys()[i]],
{
    proof {
        use_type_invariant(row);
        row.lemma_view_facts();
        row.lemma_lengths();
    }
    if row.is_empty() {
        return Err(PluginError::EmptyInsertRow);
    }
    let mut sql = String::new();
    push_str(&mut sql, "INSERT INTO ");
    let table_sql = table_text(schema, table, quote)?;
    push_str(&mut sql, table_sql.as_str());
    push_str(&mut sql, " (");
    match push_column_list(&mut sql, row, quote) {
        Err(_) => {
            return Err(PluginError::EmptyIdentifier);
        },
        Ok(()) => {},
    }
    push_str(&mut sql, ") VALUES (");
    push_placeholders(&mut sql, row.len());
    push_str(&mut sql, ")");
    let mut params: Vec<SqlValue> = Vec::new();
    let n = row.len();
    let mut i: usize = 0;
    while i < n
        invariant
            n == row.values().len(),
            n == row.keys().len(),
            i <= n,
            params@ == row.values().take(i as int),
        decreases n - i,
    {
        params.push(row.value_at(i).duplicate());
        assert(params@ =~= row.values().take(i + 1));
        i = i + 1;
    }
    assert(params@ =~= row.values());
    Ok(Statement { sql, params })
}

/// The statement that sets the given columns on the rows that meet every
/// filter. Refused when there is nothing to set, and when the table name or
/// a column name is empty.
pub fn update_statement(
    schema: Option<&str>,
    table: &str,
    values: &CrudRow,
    filters: &[CrudFilter],
    quote: char,
) -> (r: Result<Statement, PluginError>)
    ensures
        statement_view(r) == update_outcome(schema_text(schema), table@, values.keys(), values.values(), filters@, quote),
        r matches Ok(st) ==> forall|i: int| 0 <= i < values.keys().len() ==> #[trigger] st.params@[i] == values@[values.keys()[i]],
{
    proof {
        use_type_invariant(values);
        values.lemma_view_facts();
        values.lemma_lengths();
    }
    if values.is_empty() {
        return Err(PluginError::EmptyUpdateValues);
    }
    let mut sql = String::new();
    let mut params: Vec<SqlValue> = Vec::new();
    push_str(&mut sql, "UPDATE ");
    let table_sql = table_text(schema, table, quote)?;
    push_str(&mut sql, table_sql.as_str());
    push_str(&mut sql, " SET ");
    match push_assignments(&mut sql, &mut params, values, quote) {
        Err(_) => {
            return Err(PluginError::EmptyIdentifier);
        },
        Ok(()) => {},
    }
    match push_filters(&mut sql, &mut params, filters, quote) {
        Err(_) => {
            return Err(PluginError::EmptyIdentifier);
        },
        Ok(()) => {},
    }
    assert(sql@ =~= update_sql(
        qualified(schema_text(schema), table@, quote),
        values.keys(),
        filter_columns(filters@),
        quote,
    ));
    assert(params@ =~= values.values() + filter_values(filters@));
    Ok(Statement { sql, params })
}

/// The statement that deletes the rows that meet every filter (every row,
/// when there is no filter). Refused when a name is empty.
pub fn delete_statement(schema: Option<&str>, table: &str, filters: &[CrudFilter], quote: char) -> (r:
    Result<Statement, PluginError>)
    ensures
        statement_view(r) == delete_outcome(schema_text(schema), table@, filters@, quote),
{
    let mut sql = String::new();
    let mut params: Vec<SqlValue> = Vec::new();
    push_str(&mut sql, "DELETE FROM ");
    let table_sql = table_text(schema, table, quote)?;
    push_str(&mut sql, table_sql.as_str());
    match push_filters(&mut sql, &mut params, filters, quote) {
        Err(_) => {
            return Err(PluginError::EmptyIdentifier);
        },
        Ok(()) => {},
    }
    assert(sql@ =~= delete_sql(qualified(schema_text(schema), table@, quote), filter_columns(filters@), quote));
    assert(params@ =~= filter_values(filters@));
    Ok(Statement { sql, params })
}

/// The statement that reads the rows that meet every filter, at most
/// `limit` of them when a limit is given. Refused when a name is empty.
pub fn select_statement(
    schema: Option<&str>,
    table: &str,
    filters: &[CrudFilter],
    limit: Option<u32>,
    quote: char,
) -> (r: Result<Statement, PluginError>)
    ensures
        statement_view(r) == select_outcome(schema_text(schema), table@, filters@, limit, quote),
{
    let mut sql = String::new();
    let mut params: Vec<SqlValue> = Vec::new();
    push_str(&mut sql, "SELECT * FROM ");
    let table_sql = table_text(schema, table, quote)?;
    push_str(&mut sql, table_sql.as_str());
    match push_filters(&mut sql, &mut params, filters, quote) {
        Err(_) => {
            return Err(PluginError::EmptyIdentifier);
        },
        Ok(()) => {},
    }
    match limit {
        Some(n) => {
            // The limit is bound, not written into the text.
            push_str(&mut sql, " LIMIT ?");
            params.push(SqlValue::Integer(n as i64));
        },
        None => {},
    }
    assert(sql@ =~= select_sql(
        qualified(schema_text(schema), table@, quote),
        filter_columns(filters@),
        limit is Some,
        quote,
    ));
    assert(params@ =~= select_params(filters@, limit));
    Ok(Statement { sql, params })
}

/// Values never reach the SQL text: two rows with the same columns give the
/// same statement text, whatever their values, and each value is bound to
/// the placeholder of its own column.
pub proof fn lemma_values_stay_out_of_sql(
    schema: Option<Seq<char>>,
    table: Seq<char>,
    keys: Seq<Seq<char>>,
    values1: Seq<SqlValue>,
    values2: Seq<SqlValue>,
    filters1: Seq<CrudFilter>,
    filters2: Seq<CrudFilter>,
    quote: char,
)
    requires
        filter_columns(filters1) == filter_columns(filters2),
    ensures
        insert_outcome(schema, table, keys, values1, quote) matches Ok(a) ==> (insert_outcome(
            schema,
            table,
            keys,
            values2,
            quote,
        ) matches Ok(b) && a.0 == b.0 && a.1 == values1),
        update_outcome(schema, table, keys, values1, filters1, quote) matches Ok(a) ==> (
        update_outcome(schema, table, keys, values2, filters2, quote) matches Ok(b) && a.0 == b.0
            && a.1 == values1 + filter_values(filters1)),
        delete_outcome(schema, table, filters1, quote) matches Ok(a) ==> (delete_outcome(
            schema,
            table,
            filters2,
            quote,
        ) matches Ok(b) && a.0 == b.0 && a.1 == filter_values(filters1)),
{
}

/// A row is deleted, changed or read only when it meets every filter: with
/// filters, the SQL ends with ` WHERE ` and one `"column" = ?` per filter,
/// in order, joined by ` AND `; without filters it has no condition. A
/// delete and a read of the same table with the same filters use the same
/// conditions and bind the same values.
pub proof fn lemma_every_filter_is_required(
    schema: Option<Seq<char>>,
    table: Seq<char>,
    keys: Seq<Seq<char>>,
    values: Seq<SqlValue>,
    filters: Seq<CrudFilter>,
    limit: Option<u32>,
    quote: char,
)
    ensures
        delete_outcome(schema, table, filters, quote) matches Ok(d) ==> d.0 == "DELETE FROM "@
            + qualified(schema, table, quote) + if filters.len() == 0 {
            Seq::<char>::empty()
        } else {
            " WHERE "@ + joined(
                filters.map_values(|f: CrudFilter| quoted(f.column@, quote) + " = ?"@),
                " AND "@,
            )
        },
        update_outcome(schema, table, keys, values, filters, quote) matches Ok(u) ==> u.0
            == "UPDATE "@ + qualified(schema, table, quote) + " SET "@ + joined(
            keys.map_values(|k: Seq<char>| quoted(k, quote) + " = ?"@),
            ", "@,
        ) + if filters.len() == 0 {
            Seq::<char>::empty()
        } else {
            " WHERE "@ + joined(
                filters.map_values(|f: CrudFilter| quoted(f.column@, quote) + " = ?"@),
                " AND "@,
            )
        },
        select_outcome(schema, table, filters, limit, quote) matches Ok(r) ==> r.0 == "SELECT * FROM "@
            + qualified(schema, table, quote) + (if filters.len() == 0 {
            Seq::<char>::empty()
        } else {
            " WHERE "@ + joined(
                filters.map_values(|f: CrudFilter| quoted(f.column@, quote) + " = ?"@),
                " AND "@,
            )
        }) + if limit is Some {
            " LIMIT ?"@
        } else {
            Seq::<char>::empty()
        },
        delete_outcome(schema, table, filters, quote) matches Ok(d) ==> (select_outcome(
            schema,
            table,
            filters,
            None,
            quote,
        ) matches Ok(r) && r.0 == "SELECT * FROM "@ + d.0.skip(12) && r.1 == d.1),
{
    let conds = filters.map_values(|f: CrudFilter| quoted(f.column@, quote) + " = ?"@);
    assert(assignments(filter_columns(filters), quote) =~= conds);
    assert(assignments(keys, quote) =~= keys.map_values(|k: Seq<char>| quoted(k, quote) + " = ?"@));
    if delete_outcome(schema, table, filters, quote) is Ok {
        reveal_strlit("DELETE FROM ");
        let rest = qualified(schema, table, quote) + where_clause(filter_columns(filters), quote);
        assert(delete_sql(qualified(schema, table, quote), filter_columns(filters), quote)
            =~= "DELETE FROM "@ + rest);
        assert(("DELETE FROM "@ + rest).skip(12) =~= rest);
        assert(select_sql(qualified(schema, table, quote), filter_columns(filters), false, quote)
            =~= "SELECT * FROM "@ + rest);
    }
}

} // verus!