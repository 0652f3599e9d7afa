use dilib::global::{decide_claim, initializing, published, INITIALIZED, INITIALIZING, UNINITIALIZED};
use dilib::{GlobalContainer, InitContainerError, InitContainerErrorKind};
use std::sync::Mutex;

pub trait Greeter {
    fn greet(&self) -> &str;
}

struct EnglishGreeter;
impl Greeter for EnglishGreeter {
    fn greet(&self) -> &str {
        "Hello, world!"
    }
}

struct SpanishGreeter;
impl Greeter for SpanishGreeter {
    fn greet(&self) -> &str {
        "Hola, mundo!"
    }
}

type SafeGreeter = dyn Greeter + Send + Sync + 'static;

#[test]
fn global_container_test() {
    let global = GlobalContainer::new();
    global
        .initialize(|container| {
            container
                .add_scoped(|| String::from("Hello World"))
                .unwrap();
            container.add_singleton(Mutex::new(5_i32)).unwrap();
            let english: Box<SafeGreeter> = Box::new(EnglishGreeter);
            container.add_singleton::<Box<SafeGreeter>>(english).unwrap();
            container
                .add_scoped_with_name::<Box<SafeGreeter>, _>("es", || {
                    let spanish: Box<SafeGreeter> = Box::new(SpanishGreeter);
                    spanish
                })
                .unwrap();
        })
        .unwrap();

    let container = global.get().unwrap();

    assert_eq!(
        container.get_scoped::<String>().unwrap(),
        "Hello World".to_owned()
    );
    assert_eq!(
        *container
            .get_singleton::<Mutex<i32>>()
            .unwrap()
            .lock()
            .unwrap(),
        5_i32
    );

    let r3 = container
        .get_scoped_with_name::<Box<SafeGreeter>>("es")
        .unwrap();
    assert_eq!(r3.greet(), "Hola, mundo!");

    let r4 = container.get_singleton::<Box<SafeGreeter>>().unwrap();
    assert_eq!(r4.greet(), "Hello, world!");

    let r5 = container.get::<String>().unwrap();
    let r6 = container.get::<Mutex<i32>>().unwrap();

    assert_eq!(&*r5, "Hello World");
    assert_eq!(*r6.lock().unwrap(), 5_i32);
}

#[test]
fn no_initialized_test() {
    let global = GlobalContainer::new();
    assert!(global.get().is_none());

    global.initialize(|_| {}).unwrap();
    assert!(global.get().is_some());
}

#[test]
fn second_initialize_reports_already_initialized() {
    let global = GlobalContainer::new();
    assert!(!global.is_initializing());
    global
        .initialize(|c| {
            c.add_singleton(1_u8).unwrap();
        })
        .unwrap();

    let mut ran = false;
    let second = global.initialize(|_| {
        ran = true;
    });
    assert_eq!(
        second,
        Err(InitContainerError(InitContainerErrorKind::AlreadyInitialized))
    );
    assert!(!ran);
    assert!(!global.is_initializing());

    let container = global.get().unwrap();
    assert_eq!(container.len(), 1);
    assert_eq!(*container.get_singleton::<u8>().unwrap(), 1);
}

#[test]
fn claim_decisions() {
    assert_eq!(decide_claim(Ok(UNINITIALIZED)), Ok(()));
    assert_eq!(
        decide_claim(Err(INITIALIZING)),
        Err(InitContainerErrorKind::Initializing)
    );
    assert_eq!(
        decide_claim(Err(INITIALIZED)),
        Err(InitContainerErrorKind::AlreadyInitialized)
    );
}

#[test]
fn init_error_kind_and_message() {
    let busy = InitContainerError(InitContainerErrorKind::Initializing);
    assert_eq!(busy.kind(), InitContainerErrorKind::Initializing);
    assert_eq!(busy.message(), "The container was initializing");

    let done = InitContainerError(InitContainerErrorKind::AlreadyInitialized);
    assert_eq!(done.kind(), InitContainerErrorKind::AlreadyInitialized);
    assert_eq!(done.message(), "The container was already initialized");
}

#[test]
fn state_byte_readings() {
    assert!(published(INITIALIZED));
    assert!(!published(INITIALIZING));
    assert!(!published(UNINITIALIZED));
    assert!(initializing(INITIALIZING));
    assert!(!initializing(INITIALIZED));
    assert!(!initializing(UNINITIALIZED));
}
