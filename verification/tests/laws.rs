use lazydb::cursor::CatalogCursor;
use lazydb::sort::{sort_by_key, sort_by_name};

#[test]
fn sorting_by_name_is_stable_and_keeps_every_element() {
    let sorted = sort_by_name(vec![
        ("b".to_owned(), 1),
        ("a".to_owned(), 2),
        ("b".to_owned(), 3),
        ("é".to_owned(), 4),
        ("z".to_owned(), 5),
    ]);
    let order: Vec<i32> = sorted.iter().map(|(_, v)| *v).collect();
    assert_eq!(order, [2, 1, 3, 5, 4]);
}

#[test]
fn sorting_by_key_is_stable() {
    let sorted = sort_by_key(vec![(3u32, 'a'), (1, 'b'), (3, 'c'), (0, 'd')]);
    assert_eq!(sorted, vec![(0, 'd'), (1, 'b'), (3, 'a'), (3, 'c')]);
}

#[test]
fn a_keyset_cursor_gives_back_its_parts() {
    let cursor = CatalogCursor::from_keyset("00\u{0}name:with:colons", "tie").unwrap();
    assert_eq!(cursor.as_str(), "v1:19:3:00\u{0}name:with:colonstie");
    assert_eq!(cursor.keyset_parts().unwrap(), ("00\u{0}name:with:colons", "tie"));
    assert!(CatalogCursor::from_keyset("key", "").is_err());
}
