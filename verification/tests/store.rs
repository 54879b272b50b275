use simple_web_server::error::{not_found_message, validation_message, MissingField, StoreError};
use simple_web_server::model::{Foo, FooStore};

fn foo(id: Option<&str>, name: Option<&str>) -> Foo {
    Foo {
        name: name.map(|s| s.to_string()),
        id: id.map(|s| s.to_string()),
    }
}

#[test]
fn foo_from_store_sets_both_fields() {
    let made = Foo::foo_from_store("abc".to_string(), "widget".to_string());
    assert_eq!(made.id, Some("abc".to_string()));
    assert_eq!(made.name, Some("widget".to_string()));
}

#[test]
fn new_store_holds_nothing() {
    let store = FooStore::new();
    assert_eq!(
        store.get_foo("abc".to_string()),
        Err(StoreError::NotFound { id: "abc".to_string() })
    );
    assert_eq!(
        store.get_foo(String::new()),
        Err(StoreError::NotFound { id: String::new() })
    );
}

#[test]
fn put_returns_the_resource_unchanged() {
    let mut store = FooStore::new();
    let result = store.put_foo(foo(Some("abc"), Some("widget")));
    assert_eq!(result, Ok(foo(Some("abc"), Some("widget"))));
}

#[test]
fn get_after_put_gives_id_and_name() {
    let mut store = FooStore::new();
    store.put_foo(foo(Some("abc"), Some("widget"))).unwrap();
    assert_eq!(
        store.get_foo("abc".to_string()),
        Ok(foo(Some("abc"), Some("widget")))
    );
}

#[test]
fn put_under_a_held_id_replaces_the_name() {
    let mut store = FooStore::new();
    store.put_foo(foo(Some("abc"), Some("widget"))).unwrap();
    store.put_foo(foo(Some("abc"), Some("gadget"))).unwrap();
    assert_eq!(
        store.get_foo("abc".to_string()),
        Ok(foo(Some("abc"), Some("gadget")))
    );
    assert_eq!(store.delete_foo("abc".to_string()), Ok("gadget".to_string()));
    assert!(store.get_foo("abc".to_string()).is_err());
}

#[test]
fn put_keeps_other_entries() {
    let mut store = FooStore::new();
    store.put_foo(foo(Some("a"), Some("one"))).unwrap();
    store.put_foo(foo(Some("b"), Some("two"))).unwrap();
    store.put_foo(foo(Some("c"), Some("three"))).unwrap();
    assert_eq!(store.get_foo("a".to_string()), Ok(foo(Some("a"), Some("one"))));
    assert_eq!(store.get_foo("b".to_string()), Ok(foo(Some("b"), Some("two"))));
    assert_eq!(store.get_foo("c".to_string()), Ok(foo(Some("c"), Some("three"))));
}

#[test]
fn put_without_id_is_a_validation_error() {
    let mut store = FooStore::new();
    let result = store.put_foo(foo(None, Some("widget")));
    assert_eq!(
        result,
        Err(StoreError::Validation {
            missing: MissingField::Id,
            foo: foo(None, Some("widget")),
        })
    );
}

#[test]
fn put_without_name_is_a_validation_error() {
    let mut store = FooStore::new();
    let result = store.put_foo(foo(Some("abc"), None));
    assert_eq!(
        result,
        Err(StoreError::Validation {
            missing: MissingField::Name,
            foo: foo(Some("abc"), None),
        })
    );
    assert!(store.get_foo("abc".to_string()).is_err());
}

#[test]
fn put_without_either_field_reports_the_id() {
    let mut store = FooStore::new();
    let result = store.put_foo(foo(None, None));
    assert_eq!(
        result,
        Err(StoreError::Validation {
            missing: MissingField::Id,
            foo: foo(None, None),
        })
    );
}

#[test]
fn rejected_put_leaves_the_store_alone() {
    let mut store = FooStore::new();
    store.put_foo(foo(Some("abc"), Some("widget"))).unwrap();
    assert!(store.put_foo(foo(Some("abc"), None)).is_err());
    assert!(store.put_foo(foo(None, Some("gadget"))).is_err());
    assert_eq!(
        store.get_foo("abc".to_string()),
        Ok(foo(Some("abc"), Some("widget")))
    );
}

#[test]
fn put_accepts_empty_strings() {
    let mut store = FooStore::new();
    assert_eq!(
        store.put_foo(foo(Some(""), Some(""))),
        Ok(foo(Some(""), Some("")))
    );
    assert_eq!(store.get_foo(String::new()), Ok(foo(Some(""), Some(""))));
    assert_eq!(store.delete_foo(String::new()), Ok(String::new()));
}

#[test]
fn delete_returns_the_removed_name() {
    let mut store = FooStore::new();
    store.put_foo(foo(Some("abc"), Some("widget"))).unwrap();
    assert_eq!(store.delete_foo("abc".to_string()), Ok("widget".to_string()));
}

#[test]
fn get_after_delete_is_not_found() {
    let mut store = FooStore::new();
    store.put_foo(foo(Some("abc"), Some("widget"))).unwrap();
    store.delete_foo("abc".to_string()).unwrap();
    assert_eq!(
        store.get_foo("abc".to_string()),
        Err(StoreError::NotFound { id: "abc".to_string() })
    );
}

#[test]
fn delete_twice_is_not_found() {
    let mut store = FooStore::new();
    store.put_foo(foo(Some("abc"), Some("widget"))).unwrap();
    store.delete_foo("abc".to_string()).unwrap();
    assert_eq!(
        store.delete_foo("abc".to_string()),
        Err(StoreError::NotFound { id: "abc".to_string() })
    );
}

#[test]
fn delete_of_unknown_id_is_not_found_and_keeps_the_rest() {
    let mut store = FooStore::new();
    store.put_foo(foo(Some("abc"), Some("widget"))).unwrap();
    assert_eq!(
        store.delete_foo("abd".to_string()),
        Err(StoreError::NotFound { id: "abd".to_string() })
    );
    assert_eq!(
        store.get_foo("abc".to_string()),
        Ok(foo(Some("abc"), Some("widget")))
    );
}

#[test]
fn delete_keeps_other_entries() {
    let mut store = FooStore::new();
    store.put_foo(foo(Some("a"), Some("one"))).unwrap();
    store.put_foo(foo(Some("b"), Some("two"))).unwrap();
    store.delete_foo("a".to_string()).unwrap();
    assert_eq!(store.get_foo("b".to_string()), Ok(foo(Some("b"), Some("two"))));
}

#[test]
fn ids_are_told_apart_by_every_character() {
    let mut store = FooStore::new();
    store.put_foo(foo(Some("abc"), Some("lower"))).unwrap();
    store.put_foo(foo(Some("ABC"), Some("upper"))).unwrap();
    store.put_foo(foo(Some("abc "), Some("spaced"))).unwrap();
    assert_eq!(store.get_foo("abc".to_string()).unwrap().name, Some("lower".to_string()));
    assert_eq!(store.get_foo("ABC".to_string()).unwrap().name, Some("upper".to_string()));
    assert_eq!(store.get_foo("abc ".to_string()).unwrap().name, Some("spaced".to_string()));
    assert!(store.get_foo("ab".to_string()).is_err());
}

#[test]
fn not_found_message_names_the_id() {
    let err = StoreError::NotFound { id: "abc".to_string() };
    assert_eq!(err.message(), "No record found for id: abc");
    let empty = StoreError::NotFound { id: String::new() };
    assert_eq!(empty.message(), "No record found for id: ");
}

#[test]
fn missing_id_message_shows_the_resource() {
    let err = StoreError::Validation {
        missing: MissingField::Id,
        foo: foo(None, Some("widget")),
    };
    assert_eq!(
        err.message(),
        "No id present for foo: Foo {\n    name: Some(\n        \"widget\",\n    ),\n    id: None,\n}"
    );
}

#[test]
fn missing_name_message_shows_the_resource() {
    let err = StoreError::Validation {
        missing: MissingField::Name,
        foo: foo(Some("abc"), None),
    };
    assert_eq!(
        err.message(),
        "No name present for foo: Foo {\n    name: None,\n    id: Some(\n        \"abc\",\n    ),\n}"
    );
}

#[test]
fn message_escapes_quotes_in_the_resource() {
    let err = StoreError::Validation {
        missing: MissingField::Id,
        foo: foo(None, Some("a\"b")),
    };
    assert_eq!(
        err.message(),
        "No id present for foo: Foo {\n    name: Some(\n        \"a\\\"b\",\n    ),\n    id: None,\n}"
    );
}

#[test]
fn messages_come_from_the_store() {
    let mut store = FooStore::new();
    let missing = store.put_foo(foo(None, None)).unwrap_err();
    assert_eq!(
        missing.message(),
        "No id present for foo: Foo {\n    name: None,\n    id: None,\n}"
    );
    let absent = store.get_foo("42".to_string()).unwrap_err();
    assert_eq!(absent.message(), "No record found for id: 42");
    let gone = store.delete_foo("42".to_string()).unwrap_err();
    assert_eq!(gone.message(), "No record found for id: 42");
}

#[test]
fn validation_message_puts_the_field_before_the_resource() {
    assert_eq!(
        validation_message(MissingField::Id, "shown"),
        "No id present for foo: shown"
    );
    assert_eq!(
        validation_message(MissingField::Name, "shown"),
        "No name present for foo: shown"
    );
    assert_eq!(validation_message(MissingField::Id, ""), "No id present for foo: ");
}

#[test]
fn not_found_message_ends_with_the_id() {
    assert_eq!(
        not_found_message("936da01f-9abd-4d9d-80c7-02af85c822a8"),
        "No record found for id: 936da01f-9abd-4d9d-80c7-02af85c822a8"
    );
    assert_eq!(not_found_message(" "), "No record found for id:  ");
}

#[test]
fn names_and_ids_keep_characters_beyond_ascii() {
    let mut store = FooStore::new();
    store.put_foo(foo(Some("clé"), Some("näme ✓"))).unwrap();
    assert_eq!(
        store.get_foo("clé".to_string()),
        Ok(foo(Some("clé"), Some("näme ✓")))
    );
    assert!(store.get_foo("cle".to_string()).is_err());
    assert_eq!(
        store.get_foo("clef".to_string()).unwrap_err().message(),
        "No record found for id: clef"
    );
    assert_eq!(store.delete_foo("clé".to_string()), Ok("näme ✓".to_string()));
}
