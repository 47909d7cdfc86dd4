use lazydb::ddl::{assemble_ddl, DdlSection};

#[test]
fn returns_none_when_every_statement_is_empty() {
    assert_eq!(assemble_ddl(vec![]), None);
    assert_eq!(
        assemble_ddl(vec![
            DdlSection {
                label: "Table",
                statements: vec!["".to_owned(), "  \n\t".to_owned()],
            },
            DdlSection {
                label: "Indexes",
                statements: vec![],
            },
        ]),
        None
    );
}

#[test]
fn formats_non_empty_sections_and_normalizes_statements() {
    let ddl = assemble_ddl(vec![
        DdlSection {
            label: "Table",
            statements: vec!["  CREATE TABLE users (id INTEGER)  ".to_owned()],
        },
        DdlSection {
            label: "Empty",
            statements: vec!["  ".to_owned()],
        },
        DdlSection {
            label: "Indexes",
            statements: vec![
                "CREATE INDEX users_id_idx ON users (id);".to_owned(),
                "\nCREATE UNIQUE INDEX users_name_idx ON users (name)\n".to_owned(),
            ],
        },
    ]);

    assert_eq!(
        ddl.as_deref(),
        Some(
            "-- Table\n\nCREATE TABLE users (id INTEGER);\n\n-- Indexes\n\nCREATE INDEX users_id_idx ON users (id);\n\nCREATE UNIQUE INDEX users_name_idx ON users (name);"
        )
    );
}

#[test]
fn preserves_multiline_trigger_body_ending_in_semicolon() {
    let trigger = "CREATE TRIGGER users_audit\nAFTER UPDATE ON users\nBEGIN\n  INSERT INTO audit_log (user_id) VALUES (NEW.id);\n  UPDATE counters SET value = value + 1;\nEND;";

    let ddl = assemble_ddl(vec![DdlSection {
        label: "Triggers",
        statements: vec![trigger.to_owned()],
    }]);

    assert_eq!(ddl, Some(format!("-- Triggers\n\n{trigger}")));
}

#[test]
fn blank_sections_only_give_no_script_and_any_statement_gives_one() {
    assert_eq!(
        assemble_ddl(vec![DdlSection { label: "Only", statements: vec![" \t ".to_owned()] }]),
        None
    );
    assert_eq!(
        assemble_ddl(vec![DdlSection { label: "Only", statements: vec![" x ".to_owned()] }]),
        Some("-- Only\n\nx;".to_owned())
    );
}
