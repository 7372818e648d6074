//! Quoting of SQL identifiers.
//!
//! An identifier is written between two quote characters, and each quote
//! character inside it is doubled, so that whatever text follows, a reader of
//! the SQL recovers exactly the identifier that was quoted.

use vstd::prelude::*;
use crate::text::{chars_of, push_char, push_str};

verus! {

/// Why an identifier could not be quoted.
#[derive(Clone, Copy, Debug, PartialEq, Eq, Structural)]
pub enum SqlError {
    /// The identifier was empty.
    EmptyIdentifier,
}

impl SqlError {
    /// The message of the error.
    pub fn message(&self) -> (m: String)
        ensures
            m@ == "identifier cannot be empty"@,
    {
        match self {
            SqlError::EmptyIdentifier => String::from_str("identifier cannot be empty"),
        }
    }
}

/// What one character of an identifier becomes between the quotes.
pub open spec fn escaped_char(c: char, quote: char) -> Seq<char> {
    if c == quote {
        seq![quote, quote]
    } else {
        seq![c]
    }
}

/// The body of a quoted identifier: every quote character doubled.
pub open spec fn escaped(s: Seq<char>, quote: char) -> Seq<char>
    decreases s.len(),
{
    if s.len() == 0 {
        Seq::empty()
    } else {
        escaped(s.drop_last(), quote) + escaped_char(s.last(), quote)
    }
}

/// `identifier` written as a quoted SQL identifier.
pub open spec fn quoted(identifier: Seq<char>, quote: char) -> Seq<char> {
    seq![quote] + escaped(identifier, quote) + seq![quote]
}

/// `table`, preceded by `schema` and a dot where a non-empty schema is given.
pub open spec fn qualified(schema: Option<Seq<char>>, table: Seq<char>, quote: char) -> Seq<char> {
    match schema {
        Some(s) if s.len() > 0 => quoted(s, quote) + seq!['.'] + quoted(table, quote),
        _ => quoted(table, quote),
    }
}

/// Quotes `identifier` with `quote`, doubling each `quote` inside it.
/// An empty identifier is refused.
pub fn quote_identifier(identifier: &str, quote: char) -> (r: Result<String, SqlError>)
    ensures
        r is Err <==> identifier@.len() == 0,
        r matches Ok(s) ==> s@ == quoted(identifier@, quote),
        r matches Err(e) ==> e == SqlError::EmptyIdentifier,
{
    let cs = chars_of(identifier);
    if cs.len() == 0 {
        return Err(SqlError::EmptyIdentifier);
    }
    let mut out = String::new();
    push_char(&mut out, quote);
    let mut i: usize = 0;
    while i < cs.len()
        invariant
            cs@ == identifier@,
            i <= cs.len(),
            out@ == seq![quote] + escaped(cs@.take(i as int), quote),
        decreases cs.len() - i,
    {
        let c = cs[i];
        assert(cs@.take(i + 1).drop_last() =~= cs@.take(i as int));
        if c == quote {
            push_char(&mut out, quote);
            push_char(&mut out, quote);
        } else {
            push_char(&mut out, c);
        }
        assert(out@ =~= seq![quote] + escaped(cs@.take(i + 1), quote));
        i = i + 1;
    }
    assert(cs@.take(i as int) =~= cs@);
    push_char(&mut out, quote);
    Ok(out)
}

/// Quotes `table`, and `schema` before it with a dot when a non-empty schema
/// is given. Fails exactly when `table` is empty.
pub fn qualified_table(schema: Option<&str>, table: &str, quote: char) -> (r: Result<String, SqlError>)
    ensures
        r is Err <==> table@.len() == 0,
        r matches Ok(s) ==> s@ == qualified(
            match schema { Some(s) => Some(s@), None => None },
            table@,
            quote,
        ),
        r matches Err(e) ==> e == SqlError::EmptyIdentifier,
{
    let table = quote_identifier(table, quote)?;
    match schema {
        Some(schema) if !schema.is_empty() => {
            let mut out = quote_identifier(schema, quote)?;
            push_char(&mut out, '.');
            push_str(&mut out, table.as_str());
            Ok(out)
        },
        _ => Ok(table),
    }
}

// ---------------------------------------------------------------------------
// Reading quoted identifiers back.

/// Reads the body of a quoted identifier up to its closing quote: a doubled
/// quote stands for one quote character, a single quote closes the body.
/// Gives the identifier and the text after the closing quote.
pub open spec fn read_quoted_body(t: Seq<char>, quote: char) -> Option<(Seq<char>, Seq<char>)>
    decreases t.len(),
{
    if t.len() == 0 {
        None
    } else if t[0] == quote {
        if t.len() >= 2 && t[1] == quote {
            match read_quoted_body(t.skip(2), quote) {
                Some((body, rest)) => Some((seq![quote] + body, rest)),
                None => None,
            }
        } else {
            Some((Seq::empty(), t.drop_first()))
        }
    } else {
        match read_quoted_body(t.drop_first(), quote) {
            Some((body, rest)) => Some((seq![t[0]] + body, rest)),
            None => None,
        }
    }
}

/// Reads one quoted identifier from the start of `t`.
pub open spec fn read_quoted(t: Seq<char>, quote: char) -> Option<(Seq<char>, Seq<char>)> {
    if t.len() > 0 && t[0] == quote {
        read_quoted_body(t.drop_first(), quote)
    } else {
        None
    }
}

proof fn lemma_escaped_concat(a: Seq<char>, b: Seq<char>, quote: char)
    ensures
        escaped(a + b, quote) == escaped(a, quote) + escaped(b, quote),
    decreases b.len(),
{
    if b.len() == 0 {
        assert(a + b =~= a);
        assert(escaped(a, quote) + escaped(b, quote) =~= escaped(a, quote));
    } else {
        lemma_escaped_concat(a, b.drop_last(), quote);
        assert((a + b).drop_last() =~= a + b.drop_last());
        assert((a + b).last() == b.last());
        assert(escaped(a + b, quote) =~= escaped(a, quote) + escaped(b, quote));
    }
}

/// Escaping a non-empty identifier escapes its first character, then the
/// rest.
pub(crate) proof fn lemma_escaped_front(s: Seq<char>, quote: char)
    requires
        s.len() > 0,
    ensures
        escaped(s, quote) == escaped_char(s[0], quote) + escaped(s.drop_first(), quote),
{
    assert(s =~= seq![s[0]] + s.drop_first());
    lemma_escaped_concat(seq![s[0]], s.drop_first(), quote);
    let one = seq![s[0]];
    assert(one.drop_last() =~= Seq::<char>::empty());
    assert(one.last() == s[0]);
    assert(escaped(one.drop_last(), quote) =~= Seq::<char>::empty());
    assert(escaped(one, quote) =~= escaped_char(s[0], quote));
}

proof fn lemma_read_body_escaped(s: Seq<char>, quote: char, rest: Seq<char>)
    requires
        rest.len() == 0 || rest[0] != quote,
    ensures
        read_quoted_body(escaped(s, quote) + seq![quote] + rest, quote) == Some((s, rest)),
    decreases s.len(),
{
    let t = escaped(s, quote) + seq![quote] + rest;
    if s.len() == 0 {
        assert(t =~= seq![quote] + rest);
        assert(t.drop_first() =~= rest);
    } else {
        lemma_escaped_front(s, quote);
        let tail = escaped(s.drop_first(), quote) + seq![quote] + rest;
        lemma_read_body_escaped(s.drop_first(), quote, rest);
        if s[0] == quote {
            assert(t =~= seq![quote, quote] + tail);
            assert(t.skip(2) =~= tail);
        } else {
            assert(t =~= seq![s[0]] + tail);
            assert(t.drop_first() =~= tail);
        }
        assert(seq![s[0]] + s.drop_first() =~= s);
    }
}

/// A quoted identifier reads back as exactly the identifier that was quoted,
/// and the reader stops at its end, whatever text follows (unless that text
/// begins with the quote character itself).
pub proof fn lemma_quoted_identifier_reads_back(identifier: Seq<char>, quote: char, rest: Seq<char>)
    requires
        rest.len() == 0 || rest[0] != quote,
    ensures
        read_quoted(quoted(identifier, quote) + rest, quote) == Some((identifier, rest)),
{
    let t = quoted(identifier, quote) + rest;
    assert(t.drop_first() =~= escaped(identifier, quote) + seq![quote] + rest);
    lemma_read_body_escaped(identifier, quote, rest);
}

/// Different identifiers never quote to the same text.
pub proof fn lemma_quoting_is_injective(a: Seq<char>, b: Seq<char>, quote: char)
    ensures
        quoted(a, quote) == quoted(b, quote) ==> a == b,
{
    lemma_quoted_identifier_reads_back(a, quote, Seq::empty());
    lemma_quoted_identifier_reads_back(b, quote, Seq::empty());
    assert(quoted(a, quote) + Seq::<char>::empty() =~= quoted(a, quote));
    assert(quoted(b, quote) + Seq::<char>::empty() =~= quoted(b, quote));
}

/// A schema-qualified table name reads back as the schema, a dot, and the
/// table, when the quote character is not a dot.
pub proof fn lemma_qualified_table_reads_back(schema: Seq<char>, table: Seq<char>, quote: char)
    requires
        schema.len() > 0,
        quote != '.',
    ensures
        read_quoted(qualified(Some(schema), table, quote), quote) == Some(
            (schema, seq!['.'] + quoted(table, quote)),
        ),
        read_quoted(quoted(table, quote), quote) == Some((table, Seq::<char>::empty())),
{
    let tail = seq!['.'] + quoted(table, quote);
    assert(qualified(Some(schema), table, quote) =~= quoted(schema, quote) + tail);
    lemma_quoted_identifier_reads_back(schema, quote, tail);
    lemma_quoted_identifier_reads_back(table, quote, Seq::empty());
    assert(quoted(table, quote) + Seq::<char>::empty() =~= quoted(table, quote));
}

} // verus!
