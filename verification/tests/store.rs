use briefcase::error::BriefcaseError;
use briefcase::store::Store;

fn pair(name: &str, value: &str) -> (String, String) {
    (name.to_string(), value.to_string())
}

#[test]
fn set_then_get_returns_the_value_exactly() {
    let mut store = Store::new();
    assert_eq!(store.set("x", "hello"), Ok(()));
    assert_eq!(store.get("x"), Ok("hello".to_string()));
}

#[test]
fn value_keeps_its_own_newlines_and_gets_none_added() {
    let mut store = Store::new();
    assert_eq!(store.set("x", "line one\nline two"), Ok(()));
    assert_eq!(store.get("x"), Ok("line one\nline two".to_string()));
    assert_eq!(store.set("y", "ends\n"), Ok(()));
    assert_eq!(store.get("y"), Ok("ends\n".to_string()));
}

#[test]
fn empty_value_is_a_value() {
    let mut store = Store::new();
    assert_eq!(store.set("x", ""), Ok(()));
    assert_eq!(store.get("x"), Ok(String::new()));
    assert_eq!(store.count(), 1);
}

#[test]
fn second_set_overwrites_and_name_is_held_once() {
    let mut store = Store::new();
    assert_eq!(store.set("x", "a"), Ok(()));
    assert_eq!(store.set("x", "b"), Ok(()));
    assert_eq!(store.get("x"), Ok("b".to_string()));
    assert_eq!(store.count(), 1);
    assert_eq!(store.list(), vec![pair("x", "b")]);
}

#[test]
fn remove_then_get_is_not_found() {
    let mut store = Store::new();
    assert_eq!(store.set("x", "a"), Ok(()));
    assert_eq!(store.remove("x"), Ok(()));
    assert_eq!(store.get("x"), Err(BriefcaseError::EntryNotFound("x".to_string())));
    assert_eq!(store.count(), 0);
}

#[test]
fn remove_of_a_missing_name_is_not_found() {
    let mut store = Store::new();
    assert_eq!(store.remove("x"), Err(BriefcaseError::EntryNotFound("x".to_string())));
    assert_eq!(store.set("y", "1"), Ok(()));
    assert_eq!(store.remove("x"), Err(BriefcaseError::EntryNotFound("x".to_string())));
    assert_eq!(store.list(), vec![pair("y", "1")]);
}

#[test]
fn remove_leaves_the_other_entries() {
    let mut store = Store::new();
    assert_eq!(store.set("a", "1"), Ok(()));
    assert_eq!(store.set("b", "2"), Ok(()));
    assert_eq!(store.set("c", "3"), Ok(()));
    assert_eq!(store.remove("b"), Ok(()));
    let mut listed = store.list();
    listed.sort();
    assert_eq!(listed, vec![pair("a", "1"), pair("c", "3")]);
}

#[test]
fn list_holds_exactly_what_was_set() {
    let mut store = Store::new();
    assert_eq!(store.set("a", "1"), Ok(()));
    assert_eq!(store.set("b", "2"), Ok(()));
    let mut listed = store.list();
    listed.sort();
    assert_eq!(listed, vec![pair("a", "1"), pair("b", "2")]);
    assert_eq!(store.count(), 2);
}

#[test]
fn a_store_that_never_existed_reads_as_empty() {
    let store = Store::new();
    assert!(store.list().is_empty());
    assert_eq!(store.count(), 0);
    assert_eq!(store.get("x"), Err(BriefcaseError::EntryNotFound("x".to_string())));
}

#[test]
fn purge_of_a_store_that_never_existed_fails() {
    let mut store = Store::new();
    assert_eq!(store.purge(), Err(BriefcaseError::StoreNotFound));
}

#[test]
fn purge_leaves_nothing_and_cannot_be_repeated() {
    let mut store = Store::new();
    assert_eq!(store.set("a", "1"), Ok(()));
    assert_eq!(store.set("b", "2"), Ok(()));
    assert_eq!(store.purge(), Ok(()));
    assert!(store.list().is_empty());
    assert_eq!(store.count(), 0);
    assert_eq!(store.get("a"), Err(BriefcaseError::EntryNotFound("a".to_string())));
    assert_eq!(store.get("b"), Err(BriefcaseError::EntryNotFound("b".to_string())));
    assert_eq!(store.purge(), Err(BriefcaseError::StoreNotFound));
}

#[test]
fn set_after_purge_creates_the_store_again() {
    let mut store = Store::new();
    assert_eq!(store.set("a", "1"), Ok(()));
    assert_eq!(store.purge(), Ok(()));
    assert_eq!(store.set("b", "2"), Ok(()));
    assert_eq!(store.list(), vec![pair("b", "2")]);
    assert_eq!(store.purge(), Ok(()));
}

#[test]
fn ensure_open_creates_an_empty_store_once() {
    let mut store = Store::new();
    store.ensure_open();
    store.ensure_open();
    assert_eq!(store.count(), 0);
    assert_eq!(store.purge(), Ok(()));
    assert_eq!(store.purge(), Err(BriefcaseError::StoreNotFound));
}

#[test]
fn ensure_open_keeps_the_entries() {
    let mut store = Store::new();
    assert_eq!(store.set("a", "1"), Ok(()));
    store.ensure_open();
    assert_eq!(store.list(), vec![pair("a", "1")]);
}

#[test]
fn an_emptied_store_still_exists() {
    let mut store = Store::new();
    assert_eq!(store.set("a", "1"), Ok(()));
    assert_eq!(store.remove("a"), Ok(()));
    assert_eq!(store.count(), 0);
    assert_eq!(store.purge(), Ok(()));
}

#[test]
fn invalid_name_is_refused_and_the_store_is_untouched() {
    let mut store = Store::new();
    assert_eq!(store.set("ok", "1"), Ok(()));
    let invalid = BriefcaseError::InvalidEntry("2bad".to_string());
    assert_eq!(store.set("2bad", "v"), Err(invalid.clone()));
    assert_eq!(store.get("2bad"), Err(invalid.clone()));
    assert_eq!(store.remove("2bad"), Err(invalid));
    assert_eq!(store.count(), 1);
    assert_eq!(store.list(), vec![pair("ok", "1")]);
}

#[test]
fn invalid_set_does_not_create_the_store() {
    let mut store = Store::new();
    assert_eq!(store.set("", "v"), Err(BriefcaseError::InvalidEntry(String::new())));
    assert_eq!(store.set("a-b", "v"), Err(BriefcaseError::InvalidEntry("a-b".to_string())));
    assert_eq!(store.count(), 0);
    assert_eq!(store.purge(), Err(BriefcaseError::StoreNotFound));
}

#[test]
fn names_differ_by_case() {
    let mut store = Store::new();
    assert_eq!(store.set("x", "lower"), Ok(()));
    assert_eq!(store.set("X", "upper"), Ok(()));
    assert_eq!(store.count(), 2);
    assert_eq!(store.get("x"), Ok("lower".to_string()));
    assert_eq!(store.get("X"), Ok("upper".to_string()));
}
