use pyew::app_state::DbType;
use pyew::error::PluginError;
use pyew::plugins::{MySqlPlugin, SqlitePlugin};
use pyew::statement::{delete_statement, insert_statement, push_filters, select_statement, update_statement};
use pyew::values::{CrudFilter, CrudRow, SqlValue};

fn row(entries: &[(&str, SqlValue)]) -> CrudRow {
    let mut r = CrudRow::new();
    for (k, v) in entries {
        r.insert(k.to_string(), v.clone());
    }
    r
}

fn filter(column: &str, value: SqlValue) -> CrudFilter {
    CrudFilter { column: column.to_string(), value }
}

#[test]
fn sqlite_insert_lists_columns_in_key_order() {
    let r = row(&[("name", SqlValue::Text("Ann".into())), ("age", SqlValue::Integer(31))]);
    let st = SqlitePlugin.insert_row(DbType::SQLite, None, "users", &r).unwrap();
    assert_eq!(st.sql, "INSERT INTO \"users\" (\"age\", \"name\") VALUES (?, ?)");
    assert_eq!(st.params, vec![SqlValue::Integer(31), SqlValue::Text("Ann".into())]);
}

#[test]
fn mysql_insert_with_schema() {
    let r = row(&[("flag", SqlValue::Bool(true)), ("x", SqlValue::Null), ("ratio", SqlValue::Float(1.5f64.to_bits()))]);
    let st = MySqlPlugin.insert_row(DbType::MySQL, Some("shop"), "items", &r).unwrap();
    assert_eq!(st.sql, "INSERT INTO `shop`.`items` (`flag`, `ratio`, `x`) VALUES (?, ?, ?)");
    assert_eq!(
        st.params,
        vec![SqlValue::Bool(true), SqlValue::Float(1.5f64.to_bits()), SqlValue::Null]
    );
}

#[test]
fn insert_of_empty_row_is_refused() {
    let r = CrudRow::new();
    assert_eq!(SqlitePlugin.insert_row(DbType::SQLite, None, "t", &r), Err(PluginError::EmptyInsertRow));
    assert_eq!(PluginError::EmptyInsertRow.message(), "insert row cannot be empty");
    // The empty row is refused before the table name is looked at.
    assert_eq!(insert_statement(None, "", &r, '"'), Err(PluginError::EmptyInsertRow));
}

#[test]
fn insert_with_empty_names_is_refused() {
    let r = row(&[("", SqlValue::Integer(1))]);
    assert_eq!(insert_statement(None, "t", &r, '"'), Err(PluginError::EmptyIdentifier));
    let r = row(&[("a", SqlValue::Integer(1))]);
    assert_eq!(insert_statement(Some("s"), "", &r, '"'), Err(PluginError::EmptyIdentifier));
    assert_eq!(PluginError::EmptyIdentifier.message(), "identifier cannot be empty");
}

#[test]
fn wrong_handle_is_refused_first() {
    let r = CrudRow::new();
    assert_eq!(
        MySqlPlugin.insert_row(DbType::SQLite, None, "", &r),
        Err(PluginError::InvalidHandle(DbType::MySQL))
    );
    assert_eq!(
        SqlitePlugin.select_rows(DbType::Postgres, None, "t", &[], None),
        Err(PluginError::InvalidHandle(DbType::SQLite))
    );
    assert_eq!(PluginError::InvalidHandle(DbType::MySQL).message(), "invalid mysql connection handle");
    assert_eq!(PluginError::InvalidHandle(DbType::SQLite).message(), "invalid sqlite connection handle");
}

#[test]
fn update_sets_columns_then_filters() {
    let values = row(&[("b", SqlValue::Integer(2)), ("a", SqlValue::Text("x".into()))]);
    let filters = vec![filter("id", SqlValue::Integer(7)), filter("kind", SqlValue::Text("k".into()))];
    let st = MySqlPlugin.update_rows(DbType::MySQL, Some("db"), "t", &values, &filters).unwrap();
    assert_eq!(st.sql, "UPDATE `db`.`t` SET `a` = ?, `b` = ? WHERE `id` = ? AND `kind` = ?");
    assert_eq!(
        st.params,
        vec![
            SqlValue::Text("x".into()),
            SqlValue::Integer(2),
            SqlValue::Integer(7),
            SqlValue::Text("k".into())
        ]
    );
}

#[test]
fn update_without_filters_touches_every_row() {
    let values = row(&[("a", SqlValue::Null)]);
    let st = update_statement(None, "t", &values, &[], '"').unwrap();
    assert_eq!(st.sql, "UPDATE \"t\" SET \"a\" = ?");
    assert_eq!(st.params, vec![SqlValue::Null]);
}

#[test]
fn update_refusals() {
    let empty = CrudRow::new();
    assert_eq!(update_statement(None, "t", &empty, &[], '"'), Err(PluginError::EmptyUpdateValues));
    assert_eq!(PluginError::EmptyUpdateValues.message(), "update values cannot be empty");
    let values = row(&[("a", SqlValue::Null)]);
    let filters = vec![filter("", SqlValue::Null)];
    assert_eq!(update_statement(None, "t", &values, &filters, '"'), Err(PluginError::EmptyIdentifier));
}

#[test]
fn delete_with_and_without_filters() {
    let st = SqlitePlugin.delete_rows(DbType::SQLite, None, "t", &[]).unwrap();
    assert_eq!(st.sql, "DELETE FROM \"t\"");
    assert!(st.params.is_empty());
    let filters = vec![filter("id", SqlValue::Integer(1))];
    let st = delete_statement(Some("main"), "t", &filters, '"').unwrap();
    assert_eq!(st.sql, "DELETE FROM \"main\".\"t\" WHERE \"id\" = ?");
    assert_eq!(st.params, vec![SqlValue::Integer(1)]);
    assert_eq!(delete_statement(None, "t", &[filter("", SqlValue::Null)], '"'), Err(PluginError::EmptyIdentifier));
}

#[test]
fn select_binds_the_limit() {
    let filters = vec![filter("id", SqlValue::Integer(3))];
    let st = MySqlPlugin.select_rows(DbType::MySQL, None, "t", &filters, Some(10)).unwrap();
    assert_eq!(st.sql, "SELECT * FROM `t` WHERE `id` = ? LIMIT ?");
    assert_eq!(st.params, vec![SqlValue::Integer(3), SqlValue::Integer(10)]);
    let st = select_statement(None, "t", &[], None, '"').unwrap();
    assert_eq!(st.sql, "SELECT * FROM \"t\"");
    assert!(st.params.is_empty());
    let st = select_statement(None, "t", &[], Some(u32::MAX), '"').unwrap();
    assert_eq!(st.params, vec![SqlValue::Integer(4294967295)]);
}

#[test]
fn values_never_enter_the_sql_text() {
    let hostile = row(&[("a", SqlValue::Text("'); DROP TABLE t; --".into()))]);
    let plain = row(&[("a", SqlValue::Integer(1))]);
    let s1 = insert_statement(None, "t", &hostile, '"').unwrap();
    let s2 = insert_statement(None, "t", &plain, '"').unwrap();
    assert_eq!(s1.sql, s2.sql);
    assert_eq!(s1.params, vec![SqlValue::Text("'); DROP TABLE t; --".into())]);
}

#[test]
fn hostile_column_names_stay_quoted() {
    let r = row(&[("a\" = 1; --", SqlValue::Integer(1))]);
    let st = insert_statement(None, "t", &r, '"').unwrap();
    assert_eq!(st.sql, "INSERT INTO \"t\" (\"a\"\" = 1; --\") VALUES (?)");
}

/// Counts the `?` placeholders outside quoted identifiers, as SQL reads them.
fn placeholders_outside_names(sql: &str, quote: char) -> usize {
    let chars: Vec<char> = sql.chars().collect();
    let mut count = 0;
    let mut inside = false;
    let mut i = 0;
    while i < chars.len() {
        let c = chars[i];
        if inside {
            if c == quote {
                if i + 1 < chars.len() && chars[i + 1] == quote {
                    i += 1;
                } else {
                    inside = false;
                }
            }
        } else if c == quote {
            inside = true;
        } else if c == '?' {
            count += 1;
        }
        i += 1;
    }
    assert!(!inside, "identifier left open in {sql:?}");
    count
}

#[test]
fn one_placeholder_per_value() {
    let r = row(&[("a?b", SqlValue::Integer(1)), ("c\"?", SqlValue::Null), ("`?`", SqlValue::Bool(false))]);
    let filters = vec![filter("w?", SqlValue::Text("?".into())), filter("\"", SqlValue::Integer(2))];
    for (quote, st) in [
        ('"', SqlitePlugin.insert_row(DbType::SQLite, Some("s?"), "t?\"", &r).unwrap()),
        ('"', SqlitePlugin.update_rows(DbType::SQLite, None, "t?", &r, &filters).unwrap()),
        ('"', SqlitePlugin.delete_rows(DbType::SQLite, None, "t?", &filters).unwrap()),
        ('"', SqlitePlugin.select_rows(DbType::SQLite, Some("?"), "t", &filters, Some(3)).unwrap()),
        ('`', MySqlPlugin.insert_row(DbType::MySQL, None, "t`?", &r).unwrap()),
        ('`', MySqlPlugin.update_rows(DbType::MySQL, Some("x`"), "t", &r, &[]).unwrap()),
        ('`', MySqlPlugin.delete_rows(DbType::MySQL, None, "?", &[]).unwrap()),
        ('`', MySqlPlugin.select_rows(DbType::MySQL, None, "t", &filters, None).unwrap()),
    ] {
        assert_eq!(placeholders_outside_names(&st.sql, quote), st.params.len(), "{}", st.sql);
    }
}

#[test]
fn push_filters_writes_conditions_in_order() {
    let mut out = "DELETE FROM \"t\"".to_string();
    let mut params = vec![SqlValue::Null];
    let filters = vec![filter("a", SqlValue::Integer(1)), filter("b", SqlValue::Bool(true))];
    assert!(push_filters(&mut out, &mut params, &filters, '"').is_ok());
    assert_eq!(out, "DELETE FROM \"t\" WHERE \"a\" = ? AND \"b\" = ?");
    assert_eq!(params, vec![SqlValue::Null, SqlValue::Integer(1), SqlValue::Bool(true)]);

    let mut out = "X".to_string();
    let mut params = Vec::new();
    assert!(push_filters(&mut out, &mut params, &[], '"').is_ok());
    assert_eq!(out, "X");
    assert!(params.is_empty());
}

#[test]
fn push_filters_stops_at_an_empty_column() {
    let mut out = "SELECT * FROM `t`".to_string();
    let mut params = Vec::new();
    let filters = vec![
        filter("a", SqlValue::Integer(1)),
        filter("b", SqlValue::Integer(2)),
        filter("", SqlValue::Integer(3)),
        filter("c", SqlValue::Integer(4)),
    ];
    assert!(push_filters(&mut out, &mut params, &filters, '`').is_err());
    assert_eq!(out, "SELECT * FROM `t` WHERE `a` = ? AND `b` = ? AND ");
    assert_eq!(params, vec![SqlValue::Integer(1), SqlValue::Integer(2)]);

    let mut out = String::new();
    let mut params = Vec::new();
    assert!(push_filters(&mut out, &mut params, &[filter("", SqlValue::Null)], '`').is_err());
    assert_eq!(out, " WHERE ");
    assert!(params.is_empty());
}
