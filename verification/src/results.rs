//! Turning the rows a query returns into a `QueryResult`.
//!
//! The driver reads each cell as text, as an integer, as a floating-point
//! number and as a boolean; the first read that succeeds decides the value.

use vstd::prelude::*;
use vstd::string::StringExecFns;
use crate::string_map::StringMap;
use crate::values::{QueryColumn, QueryResult, QueryValue};

verus! {

/// A result value, as plain values.
pub enum QueryValueView {
    Null,
    Bool(bool),
    Integer(i64),
    Float(Seq<char>),
    Text(Seq<char>),
}

impl View for QueryValue {
    type V = QueryValueView;

    open spec fn view(&self) -> QueryValueView {
        match self {
            QueryValue::Null => QueryValueView::Null,
            QueryValue::Bool(b) => QueryValueView::Bool(*b),
            QueryValue::Integer(i) => QueryValueView::Integer(*i),
            QueryValue::Float(s) => QueryValueView::Float(s@),
            QueryValue::Text(s) => QueryValueView::Text(s@),
        }
    }
}

/// What reading one cell in each way gave: `None` where the cell could not
/// be read that way, `Some(None)` where it held SQL `NULL`. A floating-point
/// number is given as its decimal text.
#[derive(Clone, Debug, PartialEq, Eq)]
pub struct CellReads {
    pub text: Option<Option<String>>,
    pub integer: Option<Option<i64>>,
    pub float: Option<Option<String>>,
    pub boolean: Option<Option<bool>>,
}

/// One cell of a returned row, with the name and type of its column.
#[derive(Clone, Debug, PartialEq, Eq)]
pub struct ResultCell {
    pub column: String,
    pub data_type: String,
    pub reads: CellReads,
}

/// The value of a cell: the first way of reading it that succeeded, text
/// first, then integer, floating-point number and boolean; a cell that none
/// of them could read shows `<unsupported>`.
pub open spec fn cell_value(c: CellReads) -> QueryValueView {
    match c.text {
        Some(Some(s)) => QueryValueView::Text(s@),
        Some(None) => QueryValueView::Null,
        None => match c.integer {
            Some(Some(i)) => QueryValueView::Integer(i),
            Some(None) => QueryValueView::Null,
            None => match c.float {
                Some(Some(s)) => QueryValueView::Float(s@),
                Some(None) => QueryValueView::Null,
                None => match c.boolean {
                    Some(Some(b)) => QueryValueView::Bool(b),
                    Some(None) => QueryValueView::Null,
                    None => QueryValueView::Text("<unsupported>"@),
                },
            },
        },
    }
}

/// A cell shows what the first read that succeeded gave, whatever it gave:
/// a text read's value is kept as text, the empty text included, each other
/// read's value is kept as its own kind, and a cell is NULL exactly where
/// the read that decided it found SQL NULL.
pub proof fn lemma_cell_value_keeps_reads(c: CellReads)
    ensures
        c.text matches Some(Some(s)) ==> cell_value(c) == QueryValueView::Text(s@),
        c.text is None ==> (c.integer matches Some(Some(i)) ==> cell_value(c)
            == QueryValueView::Integer(i)),
        c.text is None && c.integer is None ==> (c.float matches Some(Some(f)) ==> cell_value(c)
            == QueryValueView::Float(f@)),
        c.text is None && c.integer is None && c.float is None ==> (c.boolean matches Some(Some(b))
            ==> cell_value(c) == QueryValueView::Bool(b)),
        (cell_value(c) is Null) <==> (c.text matches Some(None) || (c.text is None && (
        c.integer matches Some(None) || (c.integer is None && (c.float matches Some(None) || (
        c.float is None && c.boolean matches Some(None))))))),
{
}

/// The value of one cell.
pub fn cell_to_value(reads: &CellReads) -> (v: QueryValue)
    ensures
        v@ == cell_value(*reads),
        reads.text matches Some(Some(s)) ==> v == QueryValue::Text(s),
{
    match &reads.text {
        Some(Some(s)) => QueryValue::Text(s.clone()),
        Some(None) => QueryValue::Null,
        None => match &reads.integer {
            Some(Some(i)) => QueryValue::Integer(*i),
            Some(None) => QueryValue::Null,
            None => match &reads.float {
                Some(Some(s)) => QueryValue::Float(s.clone()),
                Some(None) => QueryValue::Null,
                None => match &reads.boolean {
                    Some(Some(b)) => QueryValue::Bool(*b),
                    Some(None) => QueryValue::Null,
                    None => QueryValue::Text(String::from_str("<unsupported>")),
                },
            },
        },
    }
}

/// A returned row by column name: each cell stored under its column's
/// name in turn, so that of two columns with one name the later one counts.
pub open spec fn row_values(cells: Seq<ResultCell>) -> Map<Seq<char>, QueryValueView>
    decreases cells.len(),
{
    if cells.len() == 0 {
        Map::empty()
    } else {
        row_values(cells.drop_last()).insert(
            cells.last().column@,
            cell_value(cells.last().reads),
        )
    }
}

/// The view of a column of a result set: its name and type.
pub open spec fn column_of(c: ResultCell) -> (Seq<char>, Seq<char>) {
    (c.column@, c.data_type@)
}

/// The values of one returned row, by column name.
pub fn row_to_map(cells: &Vec<ResultCell>) -> (m: StringMap<QueryValue>)
    ensures
        m@.map_values(|v: QueryValue| v@) == row_values(cells@),
{
    let mut m: StringMap<QueryValue> = StringMap::new();
    let mut i: usize = 0;
    assert(m@.map_values(|v: QueryValue| v@) =~= row_values(cells@.take(0)));
    while i < cells.len()
        invariant
            i <= cells@.len(),
            m@.map_values(|v: QueryValue| v@) == row_values(cells@.take(i as int)),
        decreases cells.len() - i,
    {
        let cell = &cells[i];
        let ghost before = m@;
        let value = cell_to_value(&cell.reads);
        m.insert(cell.column.clone(), value);
        assert(cells@.take(i + 1).drop_last() =~= cells@.take(i as int));
        assert(cells@.take(i + 1).last() == *cell);
        assert(m@.map_values(|v: QueryValue| v@) =~= row_values(cells@.take(i + 1)));
        i = i + 1;
    }
    assert(cells@.take(i as int) =~= cells@);
    m
}

/// The result of a query: the columns of its first row (none when no row
/// came back), each row by column name, and the number of rows changed.
pub fn rows_to_result(rows: &Vec<Vec<ResultCell>>, rows_affected: u64) -> (r: QueryResult)
    ensures
        r.rows_affected == rows_affected,
        rows@.len() == 0 ==> r.columns@.len() == 0,
        rows@.len() > 0 ==> r.columns@.map_values(|c: QueryColumn| (c.name@, c.data_type@))
            == rows@[0]@.map_values(|c: ResultCell| column_of(c)),
        r.rows@.len() == rows@.len(),
        forall|i: int| 0 <= i < rows@.len() ==> (#[trigger] r.rows@[i])@.map_values(
            |v: QueryValue| v@,
        ) == row_values(rows@[i]@),
{
    let mut columns: Vec<QueryColumn> = Vec::new();
    if rows.len() > 0 {
        let first = &rows[0];
        let mut j: usize = 0;
        while j < first.len()
            invariant
                j <= first@.len(),
                columns@.len() == j,
                forall|k: int| 0 <= k < j ==> (#[trigger] columns@[k]).name@ == first@[k].column@
                    && columns@[k].data_type@ == first@[k].data_type@,
            decreases first.len() - j,
        {
            columns.push(
                QueryColumn { name: first[j].column.clone(), data_type: first[j].data_type.clone() },
            );
            j = j + 1;
        }
        assert(columns@.map_values(|c: QueryColumn| (c.name@, c.data_type@)) =~= first@.map_values(
            |c: ResultCell| column_of(c),
        ));
    }
    let mut out: Vec<StringMap<QueryValue>> = Vec::new();
    let mut i: usize = 0;
    while i < rows.len()
        invariant
            i <= rows@.len(),
            out@.len() == i,
            forall|k: int| 0 <= k < i ==> (#[trigger] out@[k])@.map_values(|v: QueryValue| v@)
                == row_values(rows@[k]@),
        decreases rows.len() - i,
    {
        out.push(row_to_map(&rows[i]));
        i = i + 1;
    }
    QueryResult { columns, rows: out, rows_affected }
}

} // verus!
