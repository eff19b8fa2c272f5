use lazy_init::lazy::Lazy;
use lazy_init::lazy_object::{Initializer, LazyObject};
use std::cell::Cell;
use std::rc::Rc;

#[derive(Debug, PartialEq)]
struct Record {
    name: String,
    age: u32,
}

fn preston_record(age: &mut u32) -> Record {
    Record { name: "Preston".to_string(), age: *age }
}

/// An initializer with state of its own: it counts its calls.
struct Counting {
    calls: Rc<Cell<u32>>,
}

impl Initializer<u32, u32> for Counting {
    fn initialize(&mut self, seed: &mut u32) -> u32 {
        self.calls.set(self.calls.get() + 1);
        *seed + 100
    }
}

#[test]
fn object_follows_the_bare_state_call_for_call() {
    let mut state: Lazy<u32, Record> = Lazy::Uninitialized(22);
    let mut object: LazyObject<u32, Record> =
        LazyObject::new(Lazy::Uninitialized(22), Box::new(preston_record));

    assert_eq!(format!("{:?}", object), format!("{:?}", state));
    assert_eq!(object.is_initialized(), state.is_initialized());
    assert_eq!(object.is_uninitialized(), state.is_uninitialized());
    assert_eq!(object.try_initialized(), state.try_initialized());
    assert_eq!(object.try_uninitialized(), state.try_uninitialized());

    assert_eq!(object.get(), state.get(preston_record));

    assert_eq!(format!("{:?}", object), format!("{:?}", state));
    assert_eq!(object.is_initialized(), state.is_initialized());
    assert_eq!(object.is_uninitialized(), state.is_uninitialized());
    assert_eq!(object.try_initialized(), state.try_initialized());
    assert_eq!(object.try_uninitialized(), state.try_uninitialized());

    object.initialize();
    state.initialize(preston_record);
    assert_eq!(format!("{:?}", object), format!("{:?}", state));
}

#[test]
fn object_debug_shows_the_state_alone() {
    let mut object: LazyObject<u32, Record> =
        LazyObject::new(Lazy::Uninitialized(22), Box::new(preston_record));
    assert_eq!(format!("{:?}", object), "Uninitialized(22)");
    object.get();
    assert_eq!(
        format!("{:?}", object),
        "Initialized(Record { name: \"Preston\", age: 22 })"
    );
}

#[test]
fn new_does_not_run_the_initializer() {
    let calls = Rc::new(Cell::new(0));
    let seen = calls.clone();
    let mut object: LazyObject<u32, u32> = LazyObject::new(
        Lazy::Uninitialized(1),
        Box::new(move |seed: &mut u32| {
            seen.set(seen.get() + 1);
            *seed + 1
        }),
    );
    assert_eq!(calls.get(), 0);
    assert!(object.is_uninitialized());
    assert!(!object.is_initialized());
    assert!(object.try_initialized().is_none());
    assert_eq!(object.try_uninitialized(), Some(&mut 1));
    assert_eq!(calls.get(), 0);
}

#[test]
fn object_runs_its_initializer_once() {
    let calls = Rc::new(Cell::new(0));
    let seen = calls.clone();
    let mut object: LazyObject<u32, u32> = LazyObject::new(
        Lazy::Uninitialized(20),
        Box::new(move |seed: &mut u32| {
            seen.set(seen.get() + 1);
            *seed + 1
        }),
    );

    object.initialize();
    let once = format!("{:?}", object);
    object.initialize();
    assert_eq!(*object.get(), 21);
    assert_eq!(*object.get(), 21);

    assert_eq!(calls.get(), 1);
    assert_eq!(format!("{:?}", object), once);
    assert_eq!(once, "Initialized(21)");
}

#[test]
fn object_initialize_leaves_an_initialized_object() {
    let mut object: LazyObject<u32, Record> =
        LazyObject::new(Lazy::Uninitialized(22), Box::new(preston_record));
    object.initialize();
    assert!(object.is_initialized());
    assert!(!object.is_uninitialized());
    assert!(object.try_uninitialized().is_none());
    assert_eq!(
        object.try_initialized(),
        Some(&mut Record { name: "Preston".to_string(), age: 22 })
    );
}

#[test]
fn object_built_initialized_never_runs_its_initializer() {
    let mut object: LazyObject<u32, u32> = LazyObject::new(
        Lazy::Initialized(3),
        Box::new(|_: &mut u32| -> u32 { panic!("an initialized object must not call its initializer") }),
    );
    object.initialize();
    assert_eq!(*object.get(), 3);
    assert!(object.try_uninitialized().is_none());
}

#[test]
fn object_get_hands_out_a_reference_into_the_object() {
    let mut object: LazyObject<u32, Record> =
        LazyObject::new(Lazy::Uninitialized(22), Box::new(preston_record));
    object.get().age += 1;
    assert_eq!(object.get().age, 23);
}

#[test]
fn object_uses_the_seed_as_it_is_at_the_first_access() {
    let mut object: LazyObject<u32, Record> =
        LazyObject::new(Lazy::Uninitialized(22), Box::new(preston_record));
    if let Some(seed) = object.try_uninitialized() {
        *seed = 40;
    }
    assert_eq!(object.get().age, 40);
}

#[test]
fn object_takes_an_initializer_with_state_of_its_own() {
    let calls = Rc::new(Cell::new(0));
    let mut object: LazyObject<u32, u32> =
        LazyObject::new(Lazy::Uninitialized(1), Box::new(Counting { calls: calls.clone() }));

    assert_eq!(calls.get(), 0);
    assert_eq!(*object.get(), 101);
    assert_eq!(*object.get(), 101);
    object.initialize();
    assert_eq!(calls.get(), 1);
}

#[test]
fn objects_sharing_a_function_are_independent() {
    let mut first: LazyObject<u32, Record> =
        LazyObject::new(Lazy::Uninitialized(1), Box::new(preston_record));
    let mut second: LazyObject<u32, Record> =
        LazyObject::new(Lazy::Uninitialized(2), Box::new(preston_record));

    first.initialize();

    assert!(first.is_initialized());
    assert!(second.is_uninitialized());
    assert_eq!(second.get().age, 2);
    assert_eq!(first.get().age, 1);
}
