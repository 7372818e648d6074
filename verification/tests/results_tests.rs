use pyew::results::{cell_to_value, rows_to_result, CellReads, ResultCell};
use pyew::values::QueryValue;

fn reads(text: Option<Option<&str>>, integer: Option<Option<i64>>, float: Option<Option<&str>>, boolean: Option<Option<bool>>) -> CellReads {
    CellReads {
        text: text.map(|o| o.map(|s| s.to_string())),
        integer,
        float: float.map(|o| o.map(|s| s.to_string())),
        boolean,
    }
}

#[test]
fn text_read_comes_first() {
    assert_eq!(cell_to_value(&reads(Some(Some("hi")), Some(Some(1)), None, None)), QueryValue::Text("hi".into()));
    assert_eq!(cell_to_value(&reads(Some(None), Some(Some(1)), None, None)), QueryValue::Null);
}

#[test]
fn later_reads_are_tried_in_turn() {
    assert_eq!(cell_to_value(&reads(None, Some(Some(42)), Some(Some("42")), None)), QueryValue::Integer(42));
    assert_eq!(cell_to_value(&reads(None, Some(None), None, None)), QueryValue::Null);
    assert_eq!(cell_to_value(&reads(None, None, Some(Some("1.5")), Some(Some(true)))), QueryValue::Float("1.5".into()));
    assert_eq!(cell_to_value(&reads(None, None, Some(None), None)), QueryValue::Null);
    assert_eq!(cell_to_value(&reads(None, None, None, Some(Some(false)))), QueryValue::Bool(false));
    assert_eq!(cell_to_value(&reads(None, None, None, Some(None))), QueryValue::Null);
}

#[test]
fn unreadable_cell_is_unsupported() {
    assert_eq!(cell_to_value(&reads(None, None, None, None)), QueryValue::Text("<unsupported>".into()));
}

fn cell(column: &str, ty: &str, value: i64) -> ResultCell {
    ResultCell { column: column.into(), data_type: ty.into(), reads: reads(None, Some(Some(value)), None, None) }
}

#[test]
fn result_has_first_row_columns_and_rows_by_name() {
    let rows = vec![
        vec![cell("id", "INTEGER", 1), cell("n", "INT", 10)],
        vec![cell("id", "INTEGER", 2), cell("n", "INT", 20)],
    ];
    let r = rows_to_result(&rows, 3);
    assert_eq!(r.rows_affected, 3);
    assert_eq!(r.columns.len(), 2);
    assert_eq!(r.columns[0].name, "id");
    assert_eq!(r.columns[1].data_type, "INT");
    assert_eq!(r.rows.len(), 2);
    assert_eq!(r.rows[1].get("n"), Some(&QueryValue::Integer(20)));
    assert_eq!(r.rows[0].get("id"), Some(&QueryValue::Integer(1)));
    assert_eq!(r.rows[0].get("missing"), None);
}

#[test]
fn later_column_of_the_same_name_wins() {
    let rows = vec![vec![cell("x", "INT", 1), cell("x", "INT", 2)]];
    let r = rows_to_result(&rows, 0);
    assert_eq!(r.columns.len(), 2);
    assert_eq!(r.rows[0].len(), 1);
    assert_eq!(r.rows[0].get("x"), Some(&QueryValue::Integer(2)));
}

#[test]
fn no_rows_no_columns() {
    let r = rows_to_result(&vec![], 7);
    assert!(r.columns.is_empty());
    assert!(r.rows.is_empty());
    assert_eq!(r.rows_affected, 7);
}
