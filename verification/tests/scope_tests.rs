use script_macro::scope::build_scope;

#[test]
fn scope_without_item_is_empty() {
    let scope = build_scope(None);
    assert!(scope.is_empty());
    assert_eq!(scope.len(), 0);
}

#[test]
fn scope_with_item_holds_its_text_under_item() {
    let scope = build_scope(Some("fn it_works() {}"));
    assert_eq!(scope.len(), 1);
    assert_eq!(scope.get_value::<String>("item"), Some("fn it_works() {}".to_string()));
    assert!(!scope.is_constant("item").expect("item is there"));
}

#[test]
fn scope_keeps_the_item_apart_from_its_name() {
    let scope = build_scope(Some("item"));
    assert_eq!(scope.get_value::<String>("item"), Some("item".to_string()));
    let empty = build_scope(Some(""));
    assert_eq!(empty.len(), 1);
    assert_eq!(empty.get_value::<String>("item"), Some(String::new()));
}
