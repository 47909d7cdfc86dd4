use lazydb::preview::{
    append_preview_options, mysql_preview_sql, postgres_preview_base_sql, RelationPreviewOptions,
};
use lazydb::query::RELATION_PREVIEW_LIMIT;

#[test]
fn mysql_preview_reads_at_most_one_preview_of_rows() {
    assert_eq!(RELATION_PREVIEW_LIMIT, 500);
    assert_eq!(
        mysql_preview_sql("app", "us`ers", &RelationPreviewOptions::default()),
        "SELECT * FROM `app`.`us``ers` LIMIT 500"
    );
    let options = RelationPreviewOptions {
        where_clause: Some("id > 3".into()),
        order_by_clause: Some("name DESC".into()),
    };
    assert_eq!(
        mysql_preview_sql("app", "users", &options),
        "SELECT * FROM `app`.`users` WHERE id > 3 ORDER BY name DESC LIMIT 500"
    );
}

#[test]
fn preview_options_add_filter_then_order() {
    let mut sql = String::from("SELECT 1");
    append_preview_options(
        &mut sql,
        &RelationPreviewOptions { where_clause: None, order_by_clause: Some("a".into()) },
    );
    assert_eq!(sql, "SELECT 1 ORDER BY a");
    assert_eq!(
        postgres_preview_base_sql("public", "Users", &RelationPreviewOptions {
            where_clause: Some("active".into()),
            order_by_clause: None,
        }),
        "SELECT * FROM \"public\".\"Users\" WHERE active"
    );
}
