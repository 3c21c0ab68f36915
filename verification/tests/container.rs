use hc_vault::internals::TokenContainer;

#[test]
fn new_container_is_empty() {
    let container = TokenContainer::new();
    assert_eq!(container.get_token(), Some("".to_string()));
    assert_eq!(container.get_start(), 0);
    assert_eq!(container.get_duration(), 0);
    assert_eq!(container.get_renewable(), false);
}

#[test]
fn write_replaces_the_whole_snapshot() {
    let mut container = TokenContainer::new();

    container.write("tok1".to_string(), 5, 60, true);
    assert_eq!(container.get_token(), Some("tok1".to_string()));
    assert_eq!(container.get_start(), 5);
    assert_eq!(container.get_duration(), 60);
    assert_eq!(container.get_renewable(), true);

    container.write("tok2".to_string(), 9, 90, false);
    assert_eq!(container.get_token(), Some("tok2".to_string()));
    assert_eq!(container.get_start(), 9);
    assert_eq!(container.get_duration(), 90);
    assert_eq!(container.get_renewable(), false);
}

#[test]
fn field_setters_keep_the_other_fields() {
    let mut container = TokenContainer::new();
    container.write("tok1".to_string(), 5, 60, true);

    container.set_duration(30);
    assert_eq!(container.get_duration(), 30);
    assert_eq!(container.get_token(), Some("tok1".to_string()));
    assert_eq!(container.get_start(), 5);
    assert_eq!(container.get_renewable(), true);

    container.set_start(8);
    assert_eq!(container.get_start(), 8);
    assert_eq!(container.get_duration(), 30);

    container.set_renewable(false);
    assert_eq!(container.get_renewable(), false);

    container.set_token("tok3".to_string());
    assert_eq!(container.get_token(), Some("tok3".to_string()));
    assert_eq!(container.get_start(), 8);
    assert_eq!(container.get_duration(), 30);
    assert_eq!(container.get_renewable(), false);
}
