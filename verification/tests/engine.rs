use clang::engine::{Clang, EngineFlag};
use clang::index::Index;
use clang::options::BackgroundPriority;

#[test]
fn first_token_is_granted() {
    let mut flag = EngineFlag::new();
    assert!(flag.is_available());
    assert!(Clang::new(&mut flag).is_ok());
    assert!(!flag.is_available());
}

#[test]
fn second_token_fails_while_the_first_is_out() {
    let mut flag = EngineFlag::new();
    let first = Clang::new(&mut flag);
    assert!(first.is_ok());
    assert!(Clang::new(&mut flag).is_err());
    assert!(Clang::new(&mut flag).is_err());
    assert!(!flag.is_available());
}

#[test]
fn token_is_granted_again_after_release() {
    let mut flag = EngineFlag::new();
    let first = Clang::new(&mut flag).unwrap();
    assert!(Clang::new(&mut flag).is_err());
    first.release(&mut flag);
    assert!(flag.is_available());
    let second = Clang::new(&mut flag);
    assert!(second.is_ok());
    assert!(Clang::new(&mut flag).is_err());
}

#[test]
fn index_keeps_its_configuration() {
    let mut flag = EngineFlag::new();
    let clang = Clang::new(&mut flag).unwrap();
    assert_eq!(Index::new(&clang, false, false).get_creation_arguments(), (0, 0));
    assert_eq!(Index::new(&clang, true, false).get_creation_arguments(), (1, 0));
    assert_eq!(Index::new(&clang, false, true).get_creation_arguments(), (0, 1));
    assert_eq!(Index::new(&clang, true, true).get_creation_arguments(), (1, 1));
}

#[test]
fn index_background_priority() {
    let mut flag = EngineFlag::new();
    let clang = Clang::new(&mut flag).unwrap();
    let mut index = Index::new(&clang, true, false);
    assert_eq!(
        index.get_background_priority(),
        BackgroundPriority { editing: false, indexing: false }
    );
    let priority = BackgroundPriority { editing: true, indexing: false };
    index.set_background_priority(priority);
    assert_eq!(index.get_background_priority(), priority);
    assert_eq!(index.get_global_options(), 2);
    index.set_background_priority(BackgroundPriority { editing: true, indexing: true });
    assert_eq!(index.get_global_options(), 3);
    assert_eq!(index.get_creation_arguments(), (1, 0));
}
