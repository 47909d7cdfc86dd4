use lazydb::mssql::quote_identifier as mssql_quote;
use lazydb::mysql::quote_identifier as mysql_quote;
use lazydb::postgres::{column_definition, quote_identifier as pg_quote, PgDdlColumn};
use lazydb::text::sanitize_terminal_text;

#[test]
fn terminal_controls_are_shown_by_name() {
    assert_eq!(
        sanitize_terminal_text("timed out\r\u{1b}[31m"),
        "timed out<CR><ESC>[31m"
    );
    assert_eq!(sanitize_terminal_text("a\u{7f}b\u{9b}c"), "a<DEL>b<CSI>c");
    assert_eq!(sanitize_terminal_text("line\nnext\ttab"), "line\nnext\ttab");
}

#[test]
fn sanitizing_twice_changes_nothing() {
    let once = sanitize_terminal_text("x\u{0}y\u{1b}z\u{85}");
    assert_eq!(once, "x<NUL>y<ESC>z<NEL>");
    assert_eq!(sanitize_terminal_text(&once), once);
}

#[test]
fn quoting_doubles_the_closing_character() {
    assert_eq!(mysql_quote("a`b"), "`a``b`");
    assert_eq!(mysql_quote(""), "``");
    assert_eq!(pg_quote("x\"\"y"), "\"x\"\"\"\"y\"");
    assert_eq!(mssql_quote("]]"), "[]]]]]");
}

#[test]
fn distinct_names_quote_differently() {
    let names = ["a`", "`a", "a", "a``", "``a"];
    for (i, a) in names.iter().enumerate() {
        for (j, b) in names.iter().enumerate() {
            assert_eq!(mysql_quote(a) == mysql_quote(b), i == j);
        }
    }
}

#[test]
fn unsupported_identity_and_generated_combination_is_reported_with_debug_text() {
    let column = PgDdlColumn {
        name: "x".to_owned(),
        native_type: "integer".to_owned(),
        default_expression: None,
        not_null: false,
        identity_kind: "a".to_owned(),
        generated_kind: "s".to_owned(),
    };
    let error = column_definition(&column).unwrap_err();
    assert_eq!(
        error.message,
        "unsupported PostgreSQL identity/generated combination \"a\"/\"s\" for column x"
    );
}
