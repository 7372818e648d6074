use pyew::sql::{qualified_table, quote_identifier, SqlError};

#[test]
fn quotes_plain_identifier() {
    assert_eq!(quote_identifier("users", '"').unwrap(), "\"users\"");
    assert_eq!(quote_identifier("users", '`').unwrap(), "`users`");
}

#[test]
fn doubles_quote_characters_inside() {
    assert_eq!(quote_identifier("a\"b", '"').unwrap(), "\"a\"\"b\"");
    assert_eq!(quote_identifier("we`ird`", '`').unwrap(), "`we``ird```");
    // The other quote character is left alone.
    assert_eq!(quote_identifier("a`b", '"').unwrap(), "\"a`b\"");
}

#[test]
fn refuses_empty_identifier() {
    assert_eq!(quote_identifier("", '"'), Err(SqlError::EmptyIdentifier));
    assert_eq!(SqlError::EmptyIdentifier.message(), "identifier cannot be empty");
}

#[test]
fn quotes_unicode_identifier() {
    assert_eq!(quote_identifier("tâble\"é", '"').unwrap(), "\"tâble\"\"é\"");
}

#[test]
fn qualifies_table_with_schema() {
    assert_eq!(qualified_table(Some("public"), "users", '"').unwrap(), "\"public\".\"users\"");
    assert_eq!(qualified_table(Some("db"), "t`1", '`').unwrap(), "`db`.`t``1`");
}

#[test]
fn empty_or_missing_schema_is_left_out() {
    assert_eq!(qualified_table(Some(""), "users", '"').unwrap(), "\"users\"");
    assert_eq!(qualified_table(None, "users", '`').unwrap(), "`users`");
}

#[test]
fn qualified_table_refuses_empty_table() {
    assert_eq!(qualified_table(Some("public"), "", '"'), Err(SqlError::EmptyIdentifier));
    assert_eq!(qualified_table(None, "", '`'), Err(SqlError::EmptyIdentifier));
}

/// Reads one quoted identifier back from the start of `text`.
fn read_back(text: &str, quote: char) -> Option<(String, String)> {
    let mut chars = text.chars();
    if chars.next() != Some(quote) {
        return None;
    }
    let rest: Vec<char> = chars.collect();
    let mut body = String::new();
    let mut i = 0;
    while i < rest.len() {
        if rest[i] == quote {
            if i + 1 < rest.len() && rest[i + 1] == quote {
                body.push(quote);
                i += 2;
            } else {
                return Some((body, rest[i + 1..].iter().collect()));
            }
        } else {
            body.push(rest[i]);
            i += 1;
        }
    }
    None
}

#[test]
fn quoted_identifier_reads_back_whatever_follows() {
    for ident in ["users", "a\"b", "\"", "\"\"x\"", "x; DROP TABLE y; --"] {
        let quoted = quote_identifier(ident, '"').unwrap();
        let text = format!("{quoted} = ? AND 1=1");
        assert_eq!(read_back(&text, '"'), Some((ident.to_string(), " = ? AND 1=1".to_string())));
    }
}

#[test]
fn different_identifiers_quote_differently() {
    let a = quote_identifier("a\"b", '"').unwrap();
    let b = quote_identifier("a\"\"b", '"').unwrap();
    assert_ne!(a, b);
}

#[test]
fn qualified_name_reads_back_as_schema_and_table() {
    let text = qualified_table(Some("s\"1"), "t.2", '"').unwrap();
    let (schema, rest) = read_back(&text, '"').unwrap();
    assert_eq!(schema, "s\"1");
    assert!(rest.starts_with('.'));
    let (table, rest) = read_back(&rest[1..], '"').unwrap();
    assert_eq!(table, "t.2");
    assert_eq!(rest, "");
}
