use dilib::{Container, Scoped, Shared};

#[test]
fn call_factory_test() {
    let factory = Scoped::from_factory(|| "hello".to_string());
    assert_eq!(factory.call_factory::<String>(), Some("hello".to_string()));
}

#[test]
fn call_construct_test() {
    let mut container = Container::new();
    container.add_singleton(5_i32).unwrap();

    let inject = Scoped::from_construct(|c| c.get::<i32>().unwrap().cloned() + 1);
    assert_eq!(inject.call_construct(&container), Some(6));
}

#[test]
fn factory_does_not_run_as_construct() {
    let container = Container::new();
    let factory = Scoped::from_factory(|| 7_u8);
    assert!(factory.is_factory());
    assert!(!factory.is_construct());
    assert_eq!(factory.call_construct::<u8>(&container), None);
}

#[test]
fn construct_does_not_run_as_factory() {
    let construct = Scoped::from_construct(|_| 7_u8);
    assert!(construct.is_construct());
    assert_eq!(construct.call_factory::<u8>(), None);
}

#[test]
fn factory_value_of_another_type_is_absent() {
    let factory = Scoped::from_factory(|| 7_u8);
    assert_eq!(factory.call_factory::<u16>(), None);
    assert_eq!(factory.call_factory::<u8>(), Some(7_u8));
}

#[test]
fn shared_instance_and_lazy_answer_their_own_accessor() {
    let container = Container::new();
    let eager = Shared::new(3_u32);
    assert_eq!(eager.get::<u32>().map(|v| *v), Some(3));
    assert!(eager.get::<u64>().is_none());
    assert!(eager.get_with::<u32>(&container).is_none());

    let lazy = Shared::new_lazy(|_| 4_u32);
    assert!(lazy.get::<u32>().is_none());
    assert_eq!(lazy.get_with::<u32>(&container).map(|v| *v), Some(4));
}
