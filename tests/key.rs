use dilib::InjectionKey;
use std::any::TypeId;

#[test]
fn new_test() {
    let type_id = TypeId::of::<i32>();
    let key = InjectionKey::new(type_id.clone(), Some("value"));

    assert_eq!(key.type_id(), type_id.clone());
    assert_eq!(key.name(), Some("value"));
}

#[test]
fn of_test() {
    let key = InjectionKey::of::<String>();
    assert_eq!(key.type_id(), TypeId::of::<String>());
}

#[test]
fn with_name_test() {
    let key = InjectionKey::with_name::<bool>("value2");

    assert_eq!(key.type_id(), TypeId::of::<bool>());
    assert_eq!(key.name(), Some("value2"));
}

#[test]
fn key_equality_considers_type_and_name() {
    assert!(InjectionKey::of::<i32>() == InjectionKey::of::<i32>());
    assert!(InjectionKey::of::<i32>() != InjectionKey::of::<i64>());
    assert!(InjectionKey::with_name::<i32>("a") == InjectionKey::with_name::<i32>("a"));
    assert!(InjectionKey::with_name::<i32>("a") != InjectionKey::with_name::<i32>("b"));
    assert!(InjectionKey::with_name::<i32>("a") != InjectionKey::of::<i32>());
    assert!(InjectionKey::with_name::<i32>("ab") != InjectionKey::with_name::<i32>("a"));
    assert!(InjectionKey::with_name::<i32>("") != InjectionKey::of::<i32>());
}

#[test]
fn unnamed_key_has_no_name() {
    let key = InjectionKey::new(TypeId::of::<u8>(), None);
    assert_eq!(key.name(), None);
    assert_eq!(key.type_id(), TypeId::of::<u8>());
}
