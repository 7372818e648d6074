//! Counting the placeholders of SQL text as SQL reads it: a `?` outside a
//! quoted identifier is a placeholder, one inside is part of a name.
//!
//! With this reading, every statement the plugins build has exactly one
//! placeholder for each value bound to it, whatever the names hold.

use vstd::prelude::*;
use crate::values::{CrudFilter, CrudRow, SqlValue};
use crate::sql::{
    escaped, lemma_escaped_front, lemma_quoted_identifier_reads_back, qualified, quoted, read_quoted,
};
use crate::statement::{
    assignments, delete_outcome, filter_values, insert_outcome, select_outcome, update_outcome,
    filter_columns, insert_sql, joined, placeholders, quoted_names, select_sql,
    update_sql, delete_sql, where_clause,
};

verus! {

/// Scans SQL text `t`; `inside` tells whether the scan is inside a quoted
/// identifier. Outside, each `?` is a placeholder and a quote character
/// opens an identifier; inside, a doubled quote character stands for one,
/// and a single one closes the identifier. Gives the number of
/// placeholders, or `None` where the text ends inside an identifier.
pub open spec fn scan_placeholders(t: Seq<char>, quote: char, inside: bool) -> Option<nat>
    decreases t.len(),
{
    if t.len() == 0 {
        if inside {
            None
        } else {
            Some(0)
        }
    } else if inside {
        if t[0] == quote {
            if t.len() >= 2 && t[1] == quote {
                scan_placeholders(t.skip(2), quote, true)
            } else {
                scan_placeholders(t.drop_first(), quote, false)
            }
        } else {
            scan_placeholders(t.drop_first(), quote, true)
        }
    } else if t[0] == quote {
        scan_placeholders(t.drop_first(), quote, true)
    } else if t[0] == '?' {
        match scan_placeholders(t.drop_first(), quote, false) {
            Some(n) => Some(n + 1),
            None => None,
        }
    } else {
        scan_placeholders(t.drop_first(), quote, false)
    }
}

/// The number of placeholders in the SQL text `t`, whose identifiers are
/// quoted with `quote`; `None` where an identifier is left open.
pub open spec fn placeholder_count(t: Seq<char>, quote: char) -> Option<nat> {
    scan_placeholders(t, quote, false)
}

/// `n` more than an optional count.
pub open spec fn plus(count: Option<nat>, n: nat) -> Option<nat> {
    match count {
        Some(m) => Some(m + n),
        None => None,
    }
}

/// The number of `?` characters in `a`.
pub open spec fn marks(a: Seq<char>) -> nat
    decreases a.len(),
{
    if a.len() == 0 {
        0
    } else {
        (if a[0] == '?' {
            1nat
        } else {
            0nat
        }) + marks(a.drop_first())
    }
}

/// `a` holds no `c`.
pub open spec fn lacks(a: Seq<char>, c: char) -> bool {
    forall|i: int| 0 <= i < a.len() ==> a[i] != c
}

proof fn lemma_marks_concat(a: Seq<char>, b: Seq<char>)
    ensures
        marks(a + b) == marks(a) + marks(b),
    decreases a.len(),
{
    if a.len() == 0 {
        assert(a + b =~= b);
    } else {
        lemma_marks_concat(a.drop_first(), b);
        assert((a + b).drop_first() =~= a.drop_first() + b);
    }
}

proof fn lemma_no_marks(a: Seq<char>)
    requires
        lacks(a, '?'),
    ensures
        marks(a) == 0,
    decreases a.len(),
{
    if a.len() > 0 {
        lemma_no_marks(a.drop_first());
    }
}

/// Plain text, which holds no quote character, adds its `?` marks.
proof fn lemma_scan_plain(a: Seq<char>, b: Seq<char>, quote: char)
    requires
        lacks(a, quote),
    ensures
        scan_placeholders(a + b, quote, false) == plus(scan_placeholders(b, quote, false), marks(a)),
    decreases a.len(),
{
    if a.len() == 0 {
        assert(a + b =~= b);
        match scan_placeholders(b, quote, false) {
            Some(n) => {},
            None => {},
        }
    } else {
        lemma_scan_plain(a.drop_first(), b, quote);
        assert((a + b).drop_first() =~= a.drop_first() + b);
        assert((a + b)[0] == a[0]);
    }
}

proof fn lemma_scan_escaped(s: Seq<char>, quote: char, rest: Seq<char>)
    requires
        rest.len() == 0 || rest[0] != quote,
    ensures
        scan_placeholders(escaped(s, quote) + seq![quote] + rest, quote, true)
            == scan_placeholders(rest, quote, false),
    decreases s.len(),
{
    let t = escaped(s, quote) + seq![quote] + rest;
    if s.len() == 0 {
        assert(escaped(s, quote) =~= Seq::<char>::empty());
        assert(t =~= seq![quote] + rest);
        assert(t.drop_first() =~= rest);
    } else {
        lemma_escaped_front(s, quote);
        let tail = escaped(s.drop_first(), quote) + seq![quote] + rest;
        lemma_scan_escaped(s.drop_first(), quote, rest);
        if s[0] == quote {
            assert(t =~= seq![quote, quote] + tail);
            assert(t.skip(2) =~= tail);
        } else {
            assert(t =~= seq![s[0]] + tail);
            assert(t.drop_first() =~= tail);
        }
    }
}

/// A quoted identifier adds no placeholder, whatever it holds, when the
/// text after it does not begin with the quote character.
pub proof fn lemma_scan_quoted(s: Seq<char>, quote: char, rest: Seq<char>)
    requires
        rest.len() == 0 || rest[0] != quote,
    ensures
        scan_placeholders(quoted(s, quote) + rest, quote, false) == scan_placeholders(rest, quote, false),
{
    let t = quoted(s, quote) + rest;
    assert(t.drop_first() =~= escaped(s, quote) + seq![quote] + rest);
    lemma_scan_escaped(s, quote, rest);
}

/// A table name, with its schema or without, adds no placeholder.
proof fn lemma_scan_qualified(schema: Option<Seq<char>>, table: Seq<char>, quote: char, rest: Seq<char>)
    requires
        quote != '.',
        rest.len() == 0 || rest[0] != quote,
    ensures
        scan_placeholders(qualified(schema, table, quote) + rest, quote, false)
            == scan_placeholders(rest, quote, false),
{
    lemma_scan_quoted(table, quote, rest);
    match schema {
        Some(s) if s.len() > 0 => {
            let tail = seq!['.'] + (quoted(table, quote) + rest);
            assert(qualified(schema, table, quote) + rest =~= quoted(s, quote) + tail);
            lemma_scan_quoted(s, quote, tail);
            lemma_scan_plain(seq!['.'], quoted(table, quote) + rest, quote);
            assert(marks(seq!['.']) == 0) by {
                reveal_with_fuel(marks, 2);
            }
        },
        _ => {},
    }
}

/// Quoted names, each followed by `suffix` and separated by `sep`, add the
/// marks of their suffixes: none, or one per name.
proof fn lemma_scan_joined(
    parts: Seq<Seq<char>>,
    names: Seq<Seq<char>>,
    suffix: Seq<char>,
    sep: Seq<char>,
    quote: char,
    rest: Seq<char>,
)
    requires
        names.len() > 0,
        parts.len() == names.len(),
        forall|i: int| 0 <= i < parts.len() ==> #[trigger] parts[i] == quoted(names[i], quote) + suffix,
        sep.len() > 0,
        lacks(sep, quote),
        marks(sep) == 0,
        lacks(suffix, quote),
        marks(suffix) <= 1,
        rest.len() == 0 || rest[0] != quote,
    ensures
        scan_placeholders(joined(parts, sep) + rest, quote, false) == plus(
            scan_placeholders(rest, quote, false),
            if marks(suffix) == 0 {
                0
            } else {
                names.len()
            },
        ),
    decreases parts.len(),
{
    let last = parts.last();
    let nl = names.last();
    // The last part: its quoted name, then its suffix, then the rest.
    lemma_scan_plain(suffix, rest, quote);
    if suffix.len() == 0 {
        assert(suffix + rest =~= rest);
    }
    lemma_scan_quoted(nl, quote, suffix + rest);
    assert(last + rest =~= quoted(nl, quote) + (suffix + rest));
    if parts.len() == 1 {
        assert(joined(parts, sep) == parts[0]);
    } else {
        let front = parts.drop_last();
        let after = sep + (last + rest);
        lemma_scan_joined(front, names.drop_last(), suffix, sep, quote, after);
        lemma_scan_plain(sep, last + rest, quote);
        assert(joined(parts, sep) + rest =~= joined(front, sep) + after);
    }
    match scan_placeholders(rest, quote, false) {
        Some(n) => {},
        None => {},
    }
}

/// Placeholders separated by `, ` hold no quote character and one `?`
/// each.
proof fn lemma_placeholder_list(n: nat, quote: char)
    requires
        quote != '?',
        quote != ',',
        quote != ' ',
    ensures
        lacks(joined(placeholders(n), ", "@), quote),
        marks(joined(placeholders(n), ", "@)) == n,
    decreases n,
{
    reveal_strlit("?");
    reveal_strlit(", ");
    reveal_with_fuel(marks, 3);
    let p = placeholders(n);
    if n == 1 {
        assert(joined(p, ", "@) == p[0]);
    } else if n > 1 {
        lemma_placeholder_list((n - 1) as nat, quote);
        assert(p.drop_last() =~= placeholders((n - 1) as nat));
        let front = joined(p.drop_last(), ", "@);
        assert(joined(p, ", "@) == front + ", "@ + "?"@);
        lemma_marks_concat(front, ", "@);
        lemma_marks_concat(front + ", "@, "?"@);
    } else {
        assert(joined(p, ", "@) =~= Seq::<char>::empty());
    }
}

/// The quote characters the plugins use.
pub open spec fn plugin_quote(quote: char) -> bool {
    quote == '"' || quote == '`'
}

proof fn lemma_plain_words(quote: char)
    requires
        plugin_quote(quote),
    ensures
        "INSERT INTO "@.len() > 0 && lacks("INSERT INTO "@, quote) && marks("INSERT INTO "@) == 0,
        " ("@.len() > 0 && lacks(" ("@, quote) && marks(" ("@) == 0,
        ") VALUES ("@.len() > 0 && lacks(") VALUES ("@, quote) && marks(") VALUES ("@) == 0,
        ")"@.len() > 0 && lacks(")"@, quote) && marks(")"@) == 0,
        ", "@.len() > 0 && lacks(", "@, quote) && marks(", "@) == 0,
        " = ?"@.len() > 0 && lacks(" = ?"@, quote) && marks(" = ?"@) == 1,
        " AND "@.len() > 0 && lacks(" AND "@, quote) && marks(" AND "@) == 0,
        " WHERE "@.len() > 0 && lacks(" WHERE "@, quote) && marks(" WHERE "@) == 0,
        "UPDATE "@.len() > 0 && lacks("UPDATE "@, quote) && marks("UPDATE "@) == 0,
        " SET "@.len() > 0 && lacks(" SET "@, quote) && marks(" SET "@) == 0,
        "DELETE FROM "@.len() > 0 && lacks("DELETE FROM "@, quote) && marks("DELETE FROM "@) == 0,
        "SELECT * FROM "@.len() > 0 && lacks("SELECT * FROM "@, quote) && marks("SELECT * FROM "@) == 0,
        " LIMIT ?"@.len() > 0 && lacks(" LIMIT ?"@, quote) && marks(" LIMIT ?"@) == 1,
{
    reveal_strlit("INSERT INTO ");
    reveal_strlit(" (");
    reveal_strlit(") VALUES (");
    reveal_strlit(")");
    reveal_strlit(", ");
    reveal_strlit(" = ?");
    reveal_strlit(" AND ");
    reveal_strlit(" WHERE ");
    reveal_strlit("UPDATE ");
    reveal_strlit(" SET ");
    reveal_strlit("DELETE FROM ");
    reveal_strlit("SELECT * FROM ");
    reveal_strlit(" LIMIT ?");
    reveal_with_fuel(marks, 15);
}

/// An insert has one placeholder for each column.
proof fn lemma_insert_count(schema: Option<Seq<char>>, table: Seq<char>, keys: Seq<Seq<char>>, quote: char)
    requires
        plugin_quote(quote),
        keys.len() > 0,
    ensures
        placeholder_count(insert_sql(qualified(schema, table, quote), keys, quote), quote) == Some(keys.len()),
{
    lemma_plain_words(quote);
    lemma_placeholder_list(keys.len(), quote);
    let t = qualified(schema, table, quote);
    let j1 = joined(quoted_names(keys, quote), ", "@);
    let j2 = joined(placeholders(keys.len()), ", "@);
    let e = Seq::<char>::empty();
    let r5 = ")"@ + e;
    let r4 = j2 + r5;
    let r3 = ") VALUES ("@ + r4;
    let r2 = j1 + r3;
    let r1 = " ("@ + r2;
    let r0 = t + r1;
    assert(insert_sql(t, keys, quote) =~= "INSERT INTO "@ + r0);
    lemma_scan_plain(")"@, e, quote);
    lemma_scan_plain(j2, r5, quote);
    lemma_scan_plain(") VALUES ("@, r4, quote);
    assert forall|i: int| 0 <= i < quoted_names(keys, quote).len() implies #[trigger] quoted_names(
        keys,
        quote,
    )[i] == quoted(keys[i], quote) + e by {
        assert(quoted(keys[i], quote) + e =~= quoted(keys[i], quote));
    }
    lemma_scan_joined(quoted_names(keys, quote), keys, e, ", "@, quote, r3);
    lemma_scan_plain(" ("@, r2, quote);
    lemma_scan_qualified(schema, table, quote, r1);
    lemma_scan_plain("INSERT INTO "@, r0, quote);
}

/// The conditions add one placeholder each.
proof fn lemma_scan_where(columns: Seq<Seq<char>>, quote: char, rest: Seq<char>)
    requires
        plugin_quote(quote),
        rest.len() == 0 || rest[0] != quote,
    ensures
        scan_placeholders(where_clause(columns, quote) + rest, quote, false) == plus(
            scan_placeholders(rest, quote, false),
            columns.len(),
        ),
{
    lemma_plain_words(quote);
    if columns.len() == 0 {
        assert(where_clause(columns, quote) + rest =~= rest);
        match scan_placeholders(rest, quote, false) {
            Some(n) => {},
            None => {},
        }
    } else {
        let j = joined(assignments(columns, quote), " AND "@);
        assert(where_clause(columns, quote) + rest =~= " WHERE "@ + (j + rest));
        lemma_scan_joined(assignments(columns, quote), columns, " = ?"@, " AND "@, quote, rest);
        lemma_scan_plain(" WHERE "@, j + rest, quote);
    }
}

/// An update has one placeholder for each column set and each condition.
proof fn lemma_update_count(
    schema: Option<Seq<char>>,
    table: Seq<char>,
    keys: Seq<Seq<char>>,
    conditions: Seq<Seq<char>>,
    quote: char,
)
    requires
        plugin_quote(quote),
        keys.len() > 0,
    ensures
        placeholder_count(update_sql(qualified(schema, table, quote), keys, conditions, quote), quote)
            == Some(keys.len() + conditions.len()),
{
    lemma_plain_words(quote);
    let t = qualified(schema, table, quote);
    let e = Seq::<char>::empty();
    let w = where_clause(conditions, quote) + e;
    let j = joined(assignments(keys, quote), ", "@);
    let r2 = j + w;
    let r1 = " SET "@ + r2;
    let r0 = t + r1;
    assert(update_sql(t, keys, conditions, quote) =~= "UPDATE "@ + r0);
    lemma_scan_where(conditions, quote, e);
    if conditions.len() == 0 {
        assert(w =~= e);
    }
    lemma_scan_joined(assignments(keys, quote), keys, " = ?"@, ", "@, quote, w);
    lemma_scan_plain(" SET "@, r2, quote);
    lemma_scan_qualified(schema, table, quote, r1);
    lemma_scan_plain("UPDATE "@, r0, quote);
}

/// A delete has one placeholder for each condition.
proof fn lemma_delete_count(
    schema: Option<Seq<char>>,
    table: Seq<char>,
    conditions: Seq<Seq<char>>,
    quote: char,
)
    requires
        plugin_quote(quote),
    ensures
        placeholder_count(delete_sql(qualified(schema, table, quote), conditions, quote), quote)
            == Some(conditions.len()),
{
    lemma_plain_words(quote);
    let t = qualified(schema, table, quote);
    let e = Seq::<char>::empty();
    let w = where_clause(conditions, quote) + e;
    let r0 = t + w;
    assert(delete_sql(t, conditions, quote) =~= "DELETE FROM "@ + r0);
    lemma_scan_where(conditions, quote, e);
    if conditions.len() == 0 {
        assert(w =~= e);
    }
    lemma_scan_qualified(schema, table, quote, w);
    lemma_scan_plain("DELETE FROM "@, r0, quote);
}

/// A select has one placeholder for each condition, and one for the limit
/// when there is one.
proof fn lemma_select_count(
    schema: Option<Seq<char>>,
    table: Seq<char>,
    conditions: Seq<Seq<char>>,
    limited: bool,
    quote: char,
)
    requires
        plugin_quote(quote),
    ensures
        placeholder_count(select_sql(qualified(schema, table, quote), conditions, limited, quote), quote)
            == Some(conditions.len() + if limited {
            1nat
        } else {
            0nat
        }),
{
    lemma_plain_words(quote);
    let t = qualified(schema, table, quote);
    let e = Seq::<char>::empty();
    let tail = if limited {
        " LIMIT ?"@
    } else {
        e
    };
    let l = tail + e;
    let w = where_clause(conditions, quote) + l;
    let r0 = t + w;
    assert(select_sql(t, conditions, limited, quote) =~= "SELECT * FROM "@ + r0);
    lemma_scan_plain(tail, e, quote);
    lemma_scan_where(conditions, quote, l);
    if conditions.len() == 0 {
        assert(w =~= l);
    }
    lemma_scan_qualified(schema, table, quote, w);
    lemma_scan_plain("SELECT * FROM "@, r0, quote);
}

/// Every statement has exactly one placeholder for each value bound to it:
/// read as SQL reads it, where a `?` inside a quoted name is part of the
/// name, its text holds as many placeholders as it has parameters,
/// whatever the schema, table and column names hold.
pub proof fn lemma_one_placeholder_per_value(
    schema: Option<Seq<char>>,
    table: Seq<char>,
    row: CrudRow,
    filters: Seq<CrudFilter>,
    limit: Option<u32>,
    quote: char,
)
    requires
        plugin_quote(quote),
    ensures
        insert_outcome(schema, table, row.keys(), row.values(), quote) matches Ok(st)
            ==> placeholder_count(st.0, quote) == Some(st.1.len()),
        update_outcome(schema, table, row.keys(), row.values(), filters, quote) matches Ok(st)
            ==> placeholder_count(st.0, quote) == Some(st.1.len()),
        delete_outcome(schema, table, filters, quote) matches Ok(st) ==> placeholder_count(
            st.0,
            quote,
        ) == Some(st.1.len()),
        select_outcome(schema, table, filters, limit, quote) matches Ok(st) ==> placeholder_count(
            st.0,
            quote,
        ) == Some(st.1.len()),
{
    row.lemma_lengths();
    let keys = row.keys();
    let columns = filter_columns(filters);
    assert(columns.len() == filters.len());
    assert(filter_values(filters).len() == filters.len());
    if keys.len() > 0 {
        lemma_insert_count(schema, table, keys, quote);
        lemma_update_count(schema, table, keys, columns, quote);
    }
    lemma_delete_count(schema, table, columns, quote);
    lemma_select_count(schema, table, columns, limit is Some, quote);
}

/// `sql` begins with `verb`, then names schema `s` and table `t`: read as
/// quoted names, what follows `verb` is `s`, a dot, and `t`.
pub open spec fn names_schema_table(
    sql: Seq<char>,
    verb: Seq<char>,
    s: Seq<char>,
    t: Seq<char>,
    quote: char,
) -> bool {
    &&& verb.len() <= sql.len()
    &&& sql.subrange(0, verb.len() as int) == verb
    &&& read_quoted(sql.skip(verb.len() as int), quote) matches Some(first)
    &&& first.0 == s
    &&& first.1.len() > 0
    &&& first.1[0] == '.'
    &&& read_quoted(first.1.drop_first(), quote) matches Some(second)
    &&& second.0 == t
}

proof fn lemma_names_read_back(verb: Seq<char>, s: Seq<char>, t: Seq<char>, after: Seq<char>, quote: char)
    requires
        s.len() > 0,
        plugin_quote(quote),
        after.len() == 0 || after[0] != quote,
    ensures
        names_schema_table(verb + qualified(Some(s), t, quote) + after, verb, s, t, quote),
{
    let tail = seq!['.'] + (quoted(t, quote) + after);
    let sql = verb + qualified(Some(s), t, quote) + after;
    assert(sql =~= verb + (quoted(s, quote) + tail));
    assert(sql.subrange(0, verb.len() as int) =~= verb);
    assert(sql.skip(verb.len() as int) =~= quoted(s, quote) + tail);
    lemma_quoted_identifier_reads_back(s, quote, tail);
    assert(tail.drop_first() =~= quoted(t, quote) + after);
    lemma_quoted_identifier_reads_back(t, quote, after);
}

proof fn lemma_where_starts_plain(columns: Seq<Seq<char>>, quote: char, rest: Seq<char>)
    requires
        plugin_quote(quote),
        rest.len() == 0 || rest[0] != quote,
    ensures
        (where_clause(columns, quote) + rest).len() == 0 || (where_clause(columns, quote) + rest)[0]
            != quote,
{
    lemma_plain_words(quote);
    if columns.len() > 0 {
        assert(" WHERE "@[0] != quote);
    } else {
        assert(where_clause(columns, quote) + rest =~= rest);
    }
}

/// Each statement acts on the table it was asked for, in the schema it was
/// asked for: with a non-empty schema, its SQL reads, after its verb, as
/// the schema's name, a dot and the table's name.
pub proof fn lemma_statements_name_schema_and_table(
    schema: Seq<char>,
    table: Seq<char>,
    keys: Seq<Seq<char>>,
    values: Seq<SqlValue>,
    filters: Seq<CrudFilter>,
    limit: Option<u32>,
    quote: char,
)
    requires
        plugin_quote(quote),
        schema.len() > 0,
    ensures
        insert_outcome(Some(schema), table, keys, values, quote) matches Ok(st) ==> names_schema_table(
            st.0,
            "INSERT INTO "@,
            schema,
            table,
            quote,
        ),
        update_outcome(Some(schema), table, keys, values, filters, quote) matches Ok(st)
            ==> names_schema_table(st.0, "UPDATE "@, schema, table, quote),
        delete_outcome(Some(schema), table, filters, quote) matches Ok(st) ==> names_schema_table(
            st.0,
            "DELETE FROM "@,
            schema,
            table,
            quote,
        ),
        select_outcome(Some(schema), table, filters, limit, quote) matches Ok(st)
            ==> names_schema_table(st.0, "SELECT * FROM "@, schema, table, quote),
{
    lemma_plain_words(quote);
    let q = qualified(Some(schema), table, quote);
    let columns = filter_columns(filters);
    // Insert.
    let ins = " ("@ + joined(quoted_names(keys, quote), ", "@) + ") VALUES ("@ + joined(
        placeholders(keys.len()),
        ", "@,
    ) + ")"@;
    assert(insert_sql(q, keys, quote) =~= "INSERT INTO "@ + q + ins);
    assert(ins[0] == " ("@[0]);
    lemma_names_read_back("INSERT INTO "@, schema, table, ins, quote);
    // Update.
    let upd = " SET "@ + joined(assignments(keys, quote), ", "@) + where_clause(columns, quote);
    assert(update_sql(q, keys, columns, quote) =~= "UPDATE "@ + q + upd);
    assert(upd[0] == " SET "@[0]);
    lemma_names_read_back("UPDATE "@, schema, table, upd, quote);
    // Delete.
    let e = Seq::<char>::empty();
    lemma_where_starts_plain(columns, quote, e);
    assert(where_clause(columns, quote) + e =~= where_clause(columns, quote));
    assert(delete_sql(q, columns, quote) =~= "DELETE FROM "@ + q + where_clause(columns, quote));
    lemma_names_read_back("DELETE FROM "@, schema, table, where_clause(columns, quote), quote);
    // Select.
    let lim = if limit is Some {
        " LIMIT ?"@
    } else {
        e
    };
    if limit is Some {
        assert(lim[0] == " LIMIT ?"@[0]);
    }
    lemma_where_starts_plain(columns, quote, lim);
    let sel = where_clause(columns, quote) + lim;
    assert(select_sql(q, columns, limit is Some, quote) =~= "SELECT * FROM "@ + q + sel);
    lemma_names_read_back("SELECT * FROM "@, schema, table, sel, quote);
}

} // verus!
