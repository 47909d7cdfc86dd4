use lazydb::error::{DatabaseDiagnostic, DatabaseError, DatabaseErrorPosition, ErrorCategory};

#[test]
fn output_message_formats_postgres_diagnostics_without_changing_display() {
    let error = DatabaseError {
        category: ErrorCategory::Sql,
        code: Some("42P01".into()),
        message: "relation \"sdfsdf\" does not exist".into(),
        diagnostic: Some(Box::new(DatabaseDiagnostic {
            severity: Some("ERROR".into()),
            detail: None,
            hint: None,
            position: Some(DatabaseErrorPosition::Original(15)),
            context: None,
        })),
    };

    assert_eq!(
        error.output_message(),
        "[42P01] ERROR: relation \"sdfsdf\" does not exist\nPosition: 15"
    );
    assert_eq!(error.to_string(), "relation \"sdfsdf\" does not exist");
}

#[test]
fn output_message_formats_optional_and_internal_diagnostics() {
    let error = DatabaseError {
        category: ErrorCategory::Sql,
        code: None,
        message: "failed".into(),
        diagnostic: Some(Box::new(DatabaseDiagnostic {
            severity: Some("ERROR".into()),
            detail: Some("first line\nsecond line".into()),
            hint: Some("try again".into()),
            position: Some(DatabaseErrorPosition::Internal {
                position: 3,
                query: "SELECT 1".into(),
            }),
            context: Some("in function f".into()),
        })),
    };

    assert_eq!(
        error.output_message(),
        "ERROR: failed\nDetail: first line\nsecond line\nHint: try again\nInternal Position: 3\nInternal Query: SELECT 1\nContext: in function f"
    );
}

#[test]
fn output_message_without_diagnostic_defaults_the_severity() {
    let error = DatabaseError {
        category: ErrorCategory::Internal,
        code: Some("x".into()),
        message: "plain".into(),
        diagnostic: None,
    };
    assert_eq!(error.output_message(), "[x] ERROR: plain");
}
