//! Schema metadata: grouping the column list that a database reports into
//! schemas, tables and columns.

use vstd::prelude::*;
use crate::text::str_equal;
use crate::values::{
    ColumnMetadata, ColumnView, DatabaseMetadata, SchemaMetadata, SchemaView, TableMetadata,
    TableView,
};

verus! {

/// One row of MySQL's `information_schema.columns`.
#[derive(Clone, Debug, PartialEq, Eq)]
pub struct MySqlColumnRow {
    pub table_schema: String,
    pub table_name: String,
    pub column_name: String,
    pub data_type: String,
    pub is_nullable: String,
    pub ordinal_position: i32,
}

/// The column a row describes; it is nullable when the row says `YES`.
pub open spec fn row_column(r: MySqlColumnRow) -> ColumnView {
    ColumnView {
        name: r.column_name@,
        data_type: r.data_type@,
        is_nullable: r.is_nullable@ == "YES"@,
        ordinal_position: r.ordinal_position,
    }
}

/// No two tables share a name.
pub open spec fn distinct_tables(tables: Seq<TableView>) -> bool {
    forall|i: int, j: int|
        0 <= i < tables.len() && 0 <= j < tables.len() && i != j ==> #[trigger] tables[i].name
            != #[trigger] tables[j].name
}

/// No two schemas share a name, and within each schema no two tables do.
pub open spec fn distinct_schemas(schemas: Seq<SchemaView>) -> bool {
    &&& forall|i: int, j: int|
        0 <= i < schemas.len() && 0 <= j < schemas.len() && i != j ==> #[trigger] schemas[i].name
            != #[trigger] schemas[j].name
    &&& forall|i: int| 0 <= i < schemas.len() ==> distinct_tables(#[trigger] schemas[i].tables)
}

/// `col` added to the table named `table`, which is added after the others
/// when there is none of that name.
pub open spec fn add_to_tables(tables: Seq<TableView>, table: Seq<char>, col: ColumnView) -> Seq<
    TableView,
> {
    if exists|j: int| 0 <= j < tables.len() && tables[j].name == table {
        let j = choose|j: int| 0 <= j < tables.len() && tables[j].name == table;
        tables.update(j, TableView { name: tables[j].name, columns: tables[j].columns.push(col) })
    } else {
        tables.push(TableView { name: table, columns: seq![col] })
    }
}

/// The column of `r` added to its table in its schema; a schema or table
/// seen for the first time is added after the others.
pub open spec fn add_row(schemas: Seq<SchemaView>, r: MySqlColumnRow) -> Seq<SchemaView> {
    let col = row_column(r);
    if exists|j: int| 0 <= j < schemas.len() && schemas[j].name == r.table_schema@ {
        let j = choose|j: int| 0 <= j < schemas.len() && schemas[j].name == r.table_schema@;
        schemas.update(
            j,
            SchemaView {
                name: schemas[j].name,
                tables: add_to_tables(schemas[j].tables, r.table_name@, col),
            },
        )
    } else {
        schemas.push(
            SchemaView {
                name: r.table_schema@,
                tables: seq![TableView { name: r.table_name@, columns: seq![col] }],
            },
        )
    }
}

/// The rows grouped by schema and table, each group in the order of its
/// first row, and the columns of each table in the order of their rows.
pub open spec fn grouped(rows: Seq<MySqlColumnRow>) -> Seq<SchemaView>
    decreases rows.len(),
{
    if rows.len() == 0 {
        Seq::empty()
    } else {
        add_row(grouped(rows.drop_last()), rows.last())
    }
}

proof fn lemma_add_to_tables_distinct(tables: Seq<TableView>, table: Seq<char>, col: ColumnView)
    requires
        distinct_tables(tables),
    ensures
        distinct_tables(add_to_tables(tables, table, col)),
{
}

proof fn lemma_add_row_distinct(schemas: Seq<SchemaView>, r: MySqlColumnRow)
    requires
        distinct_schemas(schemas),
    ensures
        distinct_schemas(add_row(schemas, r)),
{
    let col = row_column(r);
    if exists|j: int| 0 <= j < schemas.len() && schemas[j].name == r.table_schema@ {
        let j = choose|j: int| 0 <= j < schemas.len() && schemas[j].name == r.table_schema@;
        lemma_add_to_tables_distinct(schemas[j].tables, r.table_name@, col);
    }
}

/// The position of the schema named `name`, if any.
fn find_schema(schemas: &Vec<SchemaMetadata>, name: &String) -> (r: Option<usize>)
    ensures
        r matches Some(j) ==> j < schemas@.len() && schemas@[j as int].name@ == name@,
        r is None ==> forall|j: int| 0 <= j < schemas@.len() ==> #[trigger] schemas@[j].name@ != name@,
{
    let mut j: usize = 0;
    while j < schemas.len()
        invariant
            j <= schemas@.len(),
            forall|k: int| 0 <= k < j ==> #[trigger] schemas@[k].name@ != name@,
        decreases schemas.len() - j,
    {
        if str_equal(schemas[j].name.as_str(), name.as_str()) {
            return Some(j);
        }
        j = j + 1;
    }
    None
}

/// The position of the table named `name`, if any.
fn find_table(tables: &Vec<TableMetadata>, name: &String) -> (r: Option<usize>)
    ensures
        r matches Some(j) ==> j < tables@.len() && tables@[j as int].name@ == name@,
        r is None ==> forall|j: int| 0 <= j < tables@.len() ==> #[trigger] tables@[j].name@ != name@,
{
    let mut j: usize = 0;
    while j < tables.len()
        invariant
            j <= tables@.len(),
            forall|k: int| 0 <= k < j ==> #[trigger] tables@[k].name@ != name@,
        decreases tables.len() - j,
    {
        if str_equal(tables[j].name.as_str(), name.as_str()) {
            return Some(j);
        }
        j = j + 1;
    }
    None
}

/// Adds the column of `row` to its table in `tables`.
fn add_column_to_tables(tables: &mut Vec<TableMetadata>, row: &MySqlColumnRow, col: ColumnMetadata)
    requires
        distinct_tables(old(tables)@.map_values(|t: TableMetadata| t@)),
        col@ == row_column(*row),
    ensures
        final(tables)@.map_values(|t: TableMetadata| t@) == add_to_tables(
            old(tables)@.map_values(|t: TableMetadata| t@),
            row.table_name@,
            row_column(*row),
        ),
{
    let ghost views = old(tables)@.map_values(|t: TableMetadata| t@);
    match find_table(tables, &row.table_name) {
        Some(j) => {
            assert(views[j as int].name == row.table_name@);
            let ghost k = choose|k: int| 0 <= k < views.len() && views[k].name == row.table_name@;
            assert(k == j);
            let mut table = tables.remove(j);
            table.columns.push(col);
            tables.insert(j, table);
            assert(table@.columns =~= views[j as int].columns.push(row_column(*row)));
            assert(tables@.map_values(|t: TableMetadata| t@) =~= add_to_tables(
                views,
                row.table_name@,
                row_column(*row),
            ));
        },
        None => {
            assert(!(exists|k: int| 0 <= k < views.len() && views[k].name == row.table_name@)) by {
                assert forall|k: int| 0 <= k < views.len() implies views[k].name != row.table_name@ by {
                    assert(tables@[k].name@ != row.table_name@);
                }
            }
            let mut columns: Vec<ColumnMetadata> = Vec::new();
            columns.push(col);
            let table = TableMetadata { name: row.table_name.clone(), columns };
            tables.push(table);
            assert(table@.columns =~= seq![row_column(*row)]);
            assert(tables@.map_values(|t: TableMetadata| t@) =~= add_to_tables(
                views,
                row.table_name@,
                row_column(*row),
            ));
        },
    }
}

/// Groups MySQL's column list into schemas and tables: each schema and
/// each table appears once, in the order of its first row, and each table
/// holds the columns of its rows in their order.
pub fn build_metadata(rows: &Vec<MySqlColumnRow>) -> (m: DatabaseMetadata)
    ensures
        m@ == grouped(rows@),
        distinct_schemas(m@),
{
    let mut schemas: Vec<SchemaMetadata> = Vec::new();
    let mut i: usize = 0;
    while i < rows.len()
        invariant
            i <= rows@.len(),
            schemas@.map_values(|s: SchemaMetadata| s@) == grouped(rows@.take(i as int)),
            distinct_schemas(schemas@.map_values(|s: SchemaMetadata| s@)),
        decreases rows.len() - i,
    {
        let row = &rows[i];
        let ghost views = schemas@.map_values(|s: SchemaMetadata| s@);
        assert(rows@.take(i + 1).drop_last() =~= rows@.take(i as int));
        assert(rows@.take(i + 1).last() == *row);
        proof {
            lemma_add_row_distinct(views, *row);
        }
        let col = ColumnMetadata {
            name: row.column_name.clone(),
            data_type: row.data_type.clone(),
            is_nullable: str_equal(row.is_nullable.as_str(), "YES"),
            ordinal_position: row.ordinal_position,
        };
        match find_schema(&schemas, &row.table_schema) {
            Some(j) => {
                assert(views[j as int].name == row.table_schema@);
                let ghost k = choose|k: int|
                    0 <= k < views.len() && views[k].name == row.table_schema@;
                assert(k == j);
                let mut schema = schemas.remove(j);
                assert(schema@ == views[j as int]);
                add_column_to_tables(&mut schema.tables, row, col);
                schemas.insert(j, schema);
                assert(schemas@.map_values(|s: SchemaMetadata| s@) =~= add_row(views, *row));
            },
            None => {
                assert(!(exists|k: int| 0 <= k < views.len() && views[k].name == row.table_schema@)) by {
                    assert forall|k: int| 0 <= k < views.len() implies views[k].name != row.table_schema@ by {
                        assert(schemas@[k].name@ != row.table_schema@);
                    }
                }
                let mut columns: Vec<ColumnMetadata> = Vec::new();
                columns.push(col);
                let mut tables: Vec<TableMetadata> = Vec::new();
                tables.push(TableMetadata { name: row.table_name.clone(), columns });
                let schema = SchemaMetadata { name: row.table_schema.clone(), tables };
                assert(schema@.tables =~= seq![TableView { name: row.table_name@, columns: seq![row_column(*row)] }]) by {
                    assert(schema.tables@[0]@.columns =~= seq![row_column(*row)]);
                }
                schemas.push(schema);
                assert(schemas@.map_values(|s: SchemaMetadata| s@) =~= add_row(views, *row));
            },
        }
        i = i + 1;
    }
    assert(rows@.take(i as int) =~= rows@);
    DatabaseMetadata { schemas }
}

/// The columns of the rows that belong to table `t` of schema `s`, in the
/// order of the rows.
pub open spec fn columns_of(rows: Seq<MySqlColumnRow>, s: Seq<char>, t: Seq<char>) -> Seq<ColumnView>
    decreases rows.len(),
{
    if rows.len() == 0 {
        Seq::empty()
    } else {
        let r = rows.last();
        if r.table_schema@ == s && r.table_name@ == t {
            columns_of(rows.drop_last(), s, t).push(row_column(r))
        } else {
            columns_of(rows.drop_last(), s, t)
        }
    }
}

/// The grouping holds a table `t` in a schema `s`.
pub open spec fn has_group(g: Seq<SchemaView>, s: Seq<char>, t: Seq<char>) -> bool {
    exists|i: int, j: int|
        0 <= i < g.len() && 0 <= j < g[i].tables.len() && #[trigger] g[i].name == s
            && #[trigger] g[i].tables[j].name == t
}

proof fn lemma_grouped_distinct(rows: Seq<MySqlColumnRow>)
    ensures
        distinct_schemas(grouped(rows)),
    decreases rows.len(),
{
    if rows.len() > 0 {
        lemma_grouped_distinct(rows.drop_last());
        lemma_add_row_distinct(grouped(rows.drop_last()), rows.last());
    }
}

proof fn lemma_columns_of_witness(rows: Seq<MySqlColumnRow>, s: Seq<char>, t: Seq<char>)
    ensures
        columns_of(rows, s, t).len() > 0 ==> exists|k: int|
            0 <= k < rows.len() && #[trigger] rows[k].table_schema@ == s && rows[k].table_name@
                == t,
    decreases rows.len(),
{
    if rows.len() > 0 {
        lemma_columns_of_witness(rows.drop_last(), s, t);
        let r = rows.last();
        if r.table_schema@ == s && r.table_name@ == t {
            assert(rows[rows.len() - 1].table_schema@ == s);
        } else if columns_of(rows, s, t).len() > 0 {
            let k = choose|k: int|
                0 <= k < rows.drop_last().len() && #[trigger] rows.drop_last()[k].table_schema@
                    == s && rows.drop_last()[k].table_name@ == t;
            assert(rows[k] == rows.drop_last()[k]);
        }
    }
}

/// Grouping loses no column and invents none: each table of each schema
/// holds exactly the columns of the rows of that schema and table, in the
/// order of the rows, and every row's table is found in its schema.
pub proof fn lemma_grouping_keeps_every_column(rows: Seq<MySqlColumnRow>)
    ensures
        forall|i: int, j: int|
            0 <= i < grouped(rows).len() && 0 <= j < grouped(rows)[i].tables.len() ==> (
            #[trigger] grouped(rows)[i].tables[j]).columns == columns_of(
                rows,
                grouped(rows)[i].name,
                grouped(rows)[i].tables[j].name,
            ),
        forall|k: int|
            0 <= k < rows.len() ==> has_group(
                grouped(rows),
                (#[trigger] rows[k]).table_schema@,
                rows[k].table_name@,
            ),
    decreases rows.len(),
{
    if rows.len() == 0 {
        return;
    }
    let prev = rows.drop_last();
    let r = rows.last();
    let g = grouped(prev);
    let g2 = grouped(rows);
    let col = row_column(r);
    lemma_grouping_keeps_every_column(prev);
    lemma_grouped_distinct(prev);
    assert(g2 == add_row(g, r));
    // Columns of any (s, t) gain the new column exactly for the row's pair.
    assert forall|s: Seq<char>, t: Seq<char>| #[trigger] columns_of(rows, s, t) == if r.table_schema@
        == s && r.table_name@ == t {
        columns_of(prev, s, t).push(col)
    } else {
        columns_of(prev, s, t)
    } by {}
    if exists|js: int| 0 <= js < g.len() && g[js].name == r.table_schema@ {
        let js = choose|js: int| 0 <= js < g.len() && g[js].name == r.table_schema@;
        let tables = g[js].tables;
        let tables2 = add_to_tables(tables, r.table_name@, col);
        assert(g2 == g.update(js, SchemaView { name: g[js].name, tables: tables2 }));
        if exists|jt: int| 0 <= jt < tables.len() && tables[jt].name == r.table_name@ {
            let jt = choose|jt: int| 0 <= jt < tables.len() && tables[jt].name == r.table_name@;
            assert(tables2 == tables.update(
                jt,
                TableView { name: tables[jt].name, columns: tables[jt].columns.push(col) },
            ));
            assert forall|i: int, j: int|
                0 <= i < g2.len() && 0 <= j < g2[i].tables.len() implies (#[trigger] g2[i].tables[j]).columns
                == columns_of(rows, g2[i].name, g2[i].tables[j].name) by {
                if i != js {
                    assert(g[i].name != g[js].name);
                } else if j != jt {
                    assert(tables[j].name != tables[jt].name);
                }
            }
            assert forall|k: int| 0 <= k < rows.len() implies has_group(
                g2,
                (#[trigger] rows[k]).table_schema@,
                rows[k].table_name@,
            ) by {
                if k < prev.len() {
                    assert(rows[k] == prev[k]);
                    assert(has_group(g, prev[k].table_schema@, prev[k].table_name@));
                    let (i, j) = choose|i: int, j: int|
                        0 <= i < g.len() && 0 <= j < g[i].tables.len() && #[trigger] g[i].name
                            == prev[k].table_schema@ && #[trigger] g[i].tables[j].name
                            == prev[k].table_name@;
                    assert(g2[i].name == g[i].name && g2[i].tables[j].name == g[i].tables[j].name);
                } else {
                    assert(rows[k] == r);
                    assert(g2[js].name == r.table_schema@ && g2[js].tables[jt].name == r.table_name@);
                }
            }
        } else {
            assert(tables2 == tables.push(TableView { name: r.table_name@, columns: seq![col] }));
            let jt = tables.len() as int;
            assert(columns_of(prev, r.table_schema@, r.table_name@).len() == 0) by {
                lemma_columns_of_witness(prev, r.table_schema@, r.table_name@);
                if columns_of(prev, r.table_schema@, r.table_name@).len() > 0 {
                    let k = choose|k: int|
                        0 <= k < prev.len() && #[trigger] prev[k].table_schema@ == r.table_schema@
                            && prev[k].table_name@ == r.table_name@;
                    assert(has_group(g, prev[k].table_schema@, prev[k].table_name@));
                    let (i, j) = choose|i: int, j: int|
                        0 <= i < g.len() && 0 <= j < g[i].tables.len() && #[trigger] g[i].name
                            == prev[k].table_schema@ && #[trigger] g[i].tables[j].name
                            == prev[k].table_name@;
                    assert(i == js);
                    assert(tables[j].name == r.table_name@);
                }
            }
            assert forall|i: int, j: int|
                0 <= i < g2.len() && 0 <= j < g2[i].tables.len() implies (#[trigger] g2[i].tables[j]).columns
                == columns_of(rows, g2[i].name, g2[i].tables[j].name) by {
                if i != js {
                    assert(g[i].name != g[js].name);
                } else if j != jt {
                    assert(tables[j].name != r.table_name@);
                } else {
                    assert(g2[i].tables[j].columns =~= columns_of(prev, r.table_schema@, r.table_name@).push(col));
                }
            }
            assert forall|k: int| 0 <= k < rows.len() implies has_group(
                g2,
                (#[trigger] rows[k]).table_schema@,
                rows[k].table_name@,
            ) by {
                if k < prev.len() {
                    assert(rows[k] == prev[k]);
                    assert(has_group(g, prev[k].table_schema@, prev[k].table_name@));
                    let (i, j) = choose|i: int, j: int|
                        0 <= i < g.len() && 0 <= j < g[i].tables.len() && #[trigger] g[i].name
                            == prev[k].table_schema@ && #[trigger] g[i].tables[j].name
                            == prev[k].table_name@;
                    assert(g2[i].name == g[i].name && g2[i].tables[j].name == g[i].tables[j].name);
                } else {
                    assert(rows[k] == r);
                    assert(g2[js].name == r.table_schema@ && g2[js].tables[jt].name == r.table_name@);
                }
            }
        }
    } else {
        let js = g.len() as int;
        assert(g2 == g.push(
            SchemaView {
                name: r.table_schema@,
                tables: seq![TableView { name: r.table_name@, columns: seq![col] }],
            },
        ));
        assert(columns_of(prev, r.table_schema@, r.table_name@).len() == 0) by {
            lemma_columns_of_witness(prev, r.table_schema@, r.table_name@);
            if columns_of(prev, r.table_schema@, r.table_name@).len() > 0 {
                let k = choose|k: int|
                    0 <= k < prev.len() && #[trigger] prev[k].table_schema@ == r.table_schema@
                        && prev[k].table_name@ == r.table_name@;
                assert(has_group(g, prev[k].table_schema@, prev[k].table_name@));
                let (i, j) = choose|i: int, j: int|
                    0 <= i < g.len() && 0 <= j < g[i].tables.len() && #[trigger] g[i].name
                        == prev[k].table_schema@ && #[trigger] g[i].tables[j].name
                        == prev[k].table_name@;
                assert(g[i].name == r.table_schema@);
            }
        }
        assert forall|i: int, j: int|
            0 <= i < g2.len() && 0 <= j < g2[i].tables.len() implies (#[trigger] g2[i].tables[j]).columns
            == columns_of(rows, g2[i].name, g2[i].tables[j].name) by {
            if i < js {
                assert(g[i].name != r.table_schema@);
            } else {
                assert(g2[i].tables[j].columns =~= columns_of(prev, r.table_schema@, r.table_name@).push(col));
            }
        }
        assert forall|k: int| 0 <= k < rows.len() implies has_group(
            g2,
            (#[trigger] rows[k]).table_schema@,
            rows[k].table_name@,
        ) by {
            if k < prev.len() {
                assert(rows[k] == prev[k]);
                assert(has_group(g, prev[k].table_schema@, prev[k].table_name@));
                let (i, j) = choose|i: int, j: int|
                    0 <= i < g.len() && 0 <= j < g[i].tables.len() && #[trigger] g[i].name
                        == prev[k].table_schema@ && #[trigger] g[i].tables[j].name
                        == prev[k].table_name@;
                assert(g2[i] == g[i]);
            } else {
                assert(rows[k] == r);
                assert(g2[js].name == r.table_schema@ && g2[js].tables[0].name == r.table_name@);
            }
        }
    }
}

/// The rows of schema `s` and table `t`, in their order.
pub open spec fn rows_of(rows: Seq<MySqlColumnRow>, s: Seq<char>, t: Seq<char>) -> Seq<MySqlColumnRow>
    decreases rows.len(),
{
    if rows.len() == 0 {
        Seq::empty()
    } else if rows.last().table_schema@ == s && rows.last().table_name@ == t {
        rows_of(rows.drop_last(), s, t).push(rows.last())
    } else {
        rows_of(rows.drop_last(), s, t)
    }
}

proof fn lemma_columns_of_rows(rows: Seq<MySqlColumnRow>, s: Seq<char>, t: Seq<char>)
    ensures
        columns_of(rows, s, t).len() == rows_of(rows, s, t).len(),
        forall|k: int|
            0 <= k < rows_of(rows, s, t).len() ==> {
                let c = #[trigger] columns_of(rows, s, t)[k];
                let r = rows_of(rows, s, t)[k];
                &&& c.name == r.column_name@
                &&& c.data_type == r.data_type@
                &&& c.is_nullable == (r.is_nullable@ == "YES"@)
                &&& c.ordinal_position == r.ordinal_position
            },
    decreases rows.len(),
{
    if rows.len() > 0 {
        lemma_columns_of_rows(rows.drop_last(), s, t);
    }
}

/// Each column of the grouping is the column of its own row: the `k`-th
/// column of table `t` in schema `s` has the name, data type and position
/// of the `k`-th row of that schema and table, and is nullable exactly when
/// that row says `YES`; a table has as many columns as it has rows.
pub proof fn lemma_columns_follow_their_rows(rows: Seq<MySqlColumnRow>)
    ensures
        forall|i: int, j: int|
            0 <= i < grouped(rows).len() && 0 <= j < grouped(rows)[i].tables.len() ==> {
                let table = #[trigger] grouped(rows)[i].tables[j];
                let own = rows_of(rows, grouped(rows)[i].name, table.name);
                &&& table.columns.len() == own.len()
                &&& forall|k: int|
                    0 <= k < own.len() ==> {
                        &&& (#[trigger] table.columns[k]).name == own[k].column_name@
                        &&& table.columns[k].data_type == own[k].data_type@
                        &&& table.columns[k].is_nullable == (own[k].is_nullable@ == "YES"@)
                        &&& table.columns[k].ordinal_position == own[k].ordinal_position
                    }
            },
{
    lemma_grouping_keeps_every_column(rows);
    assert forall|i: int, j: int|
        0 <= i < grouped(rows).len() && 0 <= j < grouped(rows)[i].tables.len() implies {
            let table = #[trigger] grouped(rows)[i].tables[j];
            let own = rows_of(rows, grouped(rows)[i].name, table.name);
            &&& table.columns.len() == own.len()
            &&& forall|k: int|
                0 <= k < own.len() ==> {
                    &&& (#[trigger] table.columns[k]).name == own[k].column_name@
                    &&& table.columns[k].data_type == own[k].data_type@
                    &&& table.columns[k].is_nullable == (own[k].is_nullable@ == "YES"@)
                    &&& table.columns[k].ordinal_position == own[k].ordinal_position
                }
        } by {
        lemma_columns_of_rows(rows, grouped(rows)[i].name, grouped(rows)[i].tables[j].name);
    }
}

} // verus!
