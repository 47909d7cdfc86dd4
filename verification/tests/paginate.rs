use lazydb::catalog::{
    CatalogEntry, CatalogId, CatalogKind, CatalogMetadata, ColumnMetadata, OptionalMetadata,
    QualifiedName,
};
use lazydb::catalog_error::CatalogValidationError;
use lazydb::cursor::CatalogCursor;
use lazydb::identity::ConnectionIdentity;
use lazydb::catalog::CatalogCount;
use lazydb::page::{CatalogCompleteness, CatalogPage, CatalogRequest, CatalogRequestKey, CatalogTarget};
use lazydb::paginate::{paginate_children, PaginationError};
use lazydb::scope::CatalogScope;

fn relation() -> CatalogId {
    CatalogId::new(3, CatalogKind::Table, vec!["db".into(), "s".into(), "t".into()])
}

fn child(kind: CatalogKind, last: &str, name: &str, metadata: CatalogMetadata) -> CatalogEntry {
    CatalogEntry {
        id: CatalogId::new(3, kind, vec!["db".into(), "s".into(), "t".into(), last.into()]),
        parent_id: Some(relation()),
        kind,
        native_kind: "x".into(),
        qualified_name: QualifiedName {
            database: Some("db".into()),
            schema: Some("s".into()),
            object: name.into(),
        },
        comment: OptionalMetadata::Unsupported,
        metadata,
        expandable: false,
        relation_id: Some(relation()),
    }
}

fn column(ordinal: u32, name: &str) -> CatalogEntry {
    child(
        CatalogKind::Column,
        &ordinal.to_string(),
        name,
        CatalogMetadata::Column(ColumnMetadata::new(ordinal, "int".into(), true)),
    )
}

fn request(page_size: usize, cursor: Option<CatalogCursor>) -> CatalogRequest {
    CatalogRequest {
        key: CatalogRequestKey {
            connection: ConnectionIdentity { profile_id: 3, generation: 1 },
            catalog_epoch: 1,
            request_id: 1,
            target: CatalogTarget::RelationChildren { relation: relation() },
            cursor,
        },
        scope: CatalogScope::all(),
        page_size,
    }
}

fn children() -> Vec<CatalogEntry> {
    vec![
        child(CatalogKind::Index, "b_idx", "b_idx", CatalogMetadata::NoMetadata),
        column(2, "name"),
        column(1, "id"),
    ]
}

#[test]
fn children_pages_list_columns_then_indexes_and_resume_after_the_cursor() {
    let (page, cursor) = paginate_children(children(), &request(2, None)).unwrap();
    let names: Vec<&str> = page.iter().map(|e| e.qualified_name.object.as_str()).collect();
    assert_eq!(names, ["id", "name"]);
    let cursor = cursor.expect("a second page follows");
    let expected = CatalogCursor::from_keyset("00\u{0}0000000002", "00\u{0}2").unwrap();
    assert_eq!(cursor.as_str(), expected.as_str());
    assert_eq!(cursor.keyset_parts().unwrap(), ("00\u{0}0000000002", "00\u{0}2"));

    let (page, cursor) = paginate_children(children(), &request(2, Some(cursor))).unwrap();
    let names: Vec<&str> = page.iter().map(|e| e.qualified_name.object.as_str()).collect();
    assert_eq!(names, ["b_idx"]);
    assert!(cursor.is_none());
}

#[test]
fn children_pages_refuse_bad_cursors_and_page_sizes() {
    let bad = CatalogCursor::new("not a cursor".into());
    assert!(matches!(
        paginate_children(children(), &request(2, Some(bad))),
        Err(PaginationError::InvalidCursor(CatalogValidationError::MalformedCursor))
    ));
    assert!(matches!(
        paginate_children(children(), &request(0, None)),
        Err(PaginationError::Invariant(CatalogValidationError::InvalidPageSize { .. }))
    ));
}

#[test]
fn a_page_that_holds_everything_has_no_cursor() {
    let (page, cursor) = paginate_children(children(), &request(3, None)).unwrap();
    assert_eq!(page.len(), 3);
    assert!(cursor.is_none());
}

#[test]
fn validated_pages_keep_count_size_and_progress_consistent() {
    let (entries, cursor) = paginate_children(children(), &request(2, None)).unwrap();
    let cursor = cursor.unwrap();
    let page = CatalogPage::new(&request(2, None), entries, CatalogCount::Exact(3), Some(cursor.clone()))
        .unwrap();
    assert_eq!(page.completeness, CatalogCompleteness::Partial);
    assert!(page.validate_for(&request(2, None)).is_ok());
    let (entries, _) = paginate_children(children(), &request(2, None)).unwrap();
    assert!(matches!(
        CatalogPage::new(&request(2, None), entries, CatalogCount::Exact(2), Some(cursor.clone())),
        Err(CatalogValidationError::InitialExactCountMismatch { .. })
    ));
    let (entries, _) = paginate_children(children(), &request(2, None)).unwrap();
    assert!(matches!(
        CatalogPage::new(&request(2, None), entries, CatalogCount::AtLeast(1), None),
        Err(CatalogValidationError::TotalCountBelowPayload { .. })
    ));
    let (entries, _) = paginate_children(children(), &request(2, Some(cursor.clone()))).unwrap();
    assert!(matches!(
        CatalogPage::new(&request(2, Some(cursor.clone())), entries, CatalogCount::Unknown, Some(cursor)),
        Err(_)
    ));
}
