use lazydb::catalog::{CatalogId, CatalogKind};
use uuid::Uuid;

#[test]
fn object_identity_includes_connection_kind_and_native_path() {
    let connection_id = Uuid::new_v4().as_u128();
    let id = CatalogId::new(
        connection_id,
        CatalogKind::Table,
        vec!["app".to_owned(), "public".to_owned(), "users".to_owned()],
    );

    assert_eq!(id.connection_id, connection_id);
    assert_eq!(id.kind, CatalogKind::Table);
    assert_eq!(id.native_path, vec!["app", "public", "users"]);
}
