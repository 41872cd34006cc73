use chainerror::Cause;
use chainerror::Error;
use chainerror::ErrorDown;
use chainerror::IntoCause;
use chainerror::Style;
use std::any::TypeId;
use std::fmt;
use std::io;

#[derive(Clone)]
struct OriginalError(pub String);

impl fmt::Display for OriginalError {
    fn fmt(&self, f: &mut fmt::Formatter) -> fmt::Result {
        f.write_str(&self.0)
    }
}

impl fmt::Debug for OriginalError {
    fn fmt(&self, f: &mut fmt::Formatter) -> fmt::Result {
        f.write_str("OriginalError(")?;
        f.write_str(&self.0)?;
        f.write_str(")")
    }
}

impl std::error::Error for OriginalError {}

#[derive(Debug)]
struct TestError(String);

impl fmt::Display for TestError {
    fn fmt(&self, f: &mut fmt::Formatter<'_>) -> fmt::Result {
        f.write_str(&self.0)
    }
}

impl std::error::Error for TestError {}

#[test]
fn test_error_downcasting() {
    let original = Error::new(OriginalError("test".into()), None, None);

    let error: Box<Cause> = Box::new(original.into_cause());

    // Test downcast_chain_ref
    assert!(error.is_chain::<OriginalError>());
    assert!(error.downcast_chain_ref::<OriginalError>().is_some());

    // Test downcast_inner_ref
    let inner = error.downcast_inner_ref::<OriginalError>();
    assert!(inner.is_some());
}

#[test]
fn test_downcast_chain_operations() {
    // Create a test error chain
    let original_error = Error::new(
        TestError("test message".to_string()),
        None,
        Some("test location".to_string()),
    );

    // Test is_chain
    assert!(original_error.is_chain::<TestError>());
    assert!(!original_error.is_chain::<io::Error>());

    // Test downcast_chain_ref
    let downcast_ref = original_error.downcast_chain_ref::<TestError>();
    assert!(downcast_ref.is_some());
    let downcast_kind = downcast_ref.unwrap().kind();
    assert_eq!(format!("{}", downcast_kind), "test message");
    assert_eq!(
        format!("{:?}", downcast_kind),
        "TestError(\"test message\")"
    );

    // Test invalid downcast_chain_ref
    let invalid_downcast = original_error.downcast_chain_ref::<io::Error>();
    assert!(invalid_downcast.is_none());

    // Test downcast_chain_mut
    let mut mutable_error = original_error;
    let downcast_mut = mutable_error.downcast_chain_mut::<TestError>();
    assert!(downcast_mut.is_some());
    assert_eq!(downcast_mut.unwrap().kind().0, "test message");

    // Test invalid downcast_chain_mut
    let invalid_downcast_mut = mutable_error.downcast_chain_mut::<io::Error>();
    assert!(invalid_downcast_mut.is_none());
}

#[test]
fn test_downcast_inner_operations() {
    // Create a test error
    let mut error = Error::new(
        TestError("inner test".to_string()),
        None,
        Some("test location".to_string()),
    );

    // Test downcast_inner_ref
    let inner_ref = error.downcast_inner_ref::<TestError>();
    assert!(inner_ref.is_some());
    assert_eq!(inner_ref.unwrap().0, "inner test");
    // Test invalid downcast_inner_ref
    let invalid_inner = error.downcast_inner_ref::<io::Error>();
    assert!(invalid_inner.is_none());

    // Test downcast_inner_mut
    let inner_mut = error.downcast_inner_mut::<TestError>();
    assert!(inner_mut.is_some());
    assert_eq!(inner_mut.unwrap().0, "inner test");

    // Test invalid downcast_inner_mut
    let invalid_inner_mut = error.downcast_inner_mut::<io::Error>();
    assert!(invalid_inner_mut.is_none());
}

#[test]
fn test_error_down_for_dyn_error() {
    // Create a boxed error
    let error: Box<Cause> = Box::new(
        Error::new(
            TestError("dyn test".to_string()),
            None,
            Some("test location".to_string()),
        )
        .into_cause(),
    );

    // Test is_chain through the erased error
    assert!(error.is_chain::<TestError>());
    assert!(!error.is_chain::<io::Error>());

    // Test downcast_chain_ref through the erased error
    let chain_ref = error.downcast_chain_ref::<TestError>();
    assert!(chain_ref.is_some());
    assert_eq!(
        chain_ref.unwrap().inner().downcast_ref::<TestError>().unwrap().0,
        "dyn test"
    );
    assert_eq!(chain_ref.unwrap().inner().text(Style::Display), "dyn test");

    // Test downcast_inner_ref through the erased error
    let inner_ref = error.downcast_inner_ref::<TestError>();
    assert!(inner_ref.is_some());
    assert_eq!(inner_ref.unwrap().downcast_ref::<TestError>().unwrap().0, "dyn test");
    assert_eq!(inner_ref.unwrap().text(Style::Display), "dyn test");
}

#[test]
fn test_error_down_with_sync_send() {
    fn is_send_sync<S: Send + Sync>(_: &S) -> bool {
        true
    }

    // Create a boxed error that can cross threads
    let error: Box<Cause> = Box::new(
        Error::new(
            TestError("sync test".to_string()),
            None,
            Some("test location".to_string()),
        )
        .into_cause(),
    );
    assert!(is_send_sync(&error));

    // Test operations on the erased error
    assert!(error.is_chain::<TestError>());
    assert!(error.downcast_chain_ref::<TestError>().is_some());
    assert!(error.downcast_inner_ref::<TestError>().is_some());

    // Test invalid downcasts
    assert!(!error.is_chain::<io::Error>());
    assert!(error.downcast_chain_ref::<io::Error>().is_none());
    assert!(error.downcast_inner_ref::<io::Error>().is_none());
}

#[test]
fn a_type_can_be_named_by_its_identity() {
    let mut typed = Error::new(
        TestError("typed".to_string()),
        None,
        Some("test location".to_string()),
    );
    let kind = TypeId::of::<TestError>();
    let other = TypeId::of::<io::Error>();
    let own = TypeId::of::<Error<TestError>>();
    assert_eq!(typed.type_id(), own);
    assert_eq!(typed.kind_id(), kind);

    assert!(typed.is_chain_by_id(kind));
    assert!(!typed.is_chain_by_id(other));
    assert!(!typed.is_chain_by_id(own));
    assert_eq!(typed.downcast_chain_ref_by_id(kind).unwrap().kind().0, "typed");
    assert!(typed.downcast_chain_ref_by_id(other).is_none());
    assert_eq!(typed.downcast_inner_ref_by_id(kind).unwrap().0, "typed");
    assert!(typed.downcast_inner_ref_by_id(other).is_none());
    assert!(typed.downcast_inner_ref_by_id(own).is_none());
    assert!(typed.downcast_chain_mut_by_id(other).is_none());
    assert!(typed.downcast_inner_mut_by_id(other).is_none());
    typed.downcast_inner_mut_by_id(kind).unwrap().0.push_str(", changed");
    assert_eq!(typed.downcast_chain_mut_by_id(kind).unwrap().kind().0, "typed, changed");

    let mut erased = typed.into_cause();
    assert_eq!(erased.type_id(), own);
    assert!(erased.is_chain_by_id(kind));
    assert!(!erased.is_chain_by_id(other));
    assert!(!erased.is_chain_by_id(own));
    assert_eq!(
        erased.downcast_chain_ref_by_id(kind).unwrap().display(),
        "typed, changed"
    );
    assert!(erased.downcast_chain_ref_by_id(other).is_none());
    assert_eq!(
        erased.downcast_inner_ref_by_id(kind).unwrap().text(Style::Display),
        "typed, changed"
    );
    assert!(erased.downcast_inner_ref_by_id(other).is_none());
    assert!(erased.downcast_inner_ref_by_id(own).is_none());
    assert!(erased.downcast_chain_mut_by_id(other).is_none());
    assert!(erased.downcast_chain_mut_by_id(kind).is_some());
    assert!(erased.downcast_inner_mut_by_id(other).is_none());
    assert!(erased.downcast_inner_mut_by_id(kind).is_some());
}

#[test]
fn an_error_that_is_no_link_has_no_kind() {
    let mut leaf = io::Error::from(io::ErrorKind::NotFound).into_cause();
    let own = TypeId::of::<io::Error>();
    assert_eq!(leaf.type_id(), own);
    // it is no link, so it is no chain of any kind, and has no kind to hand out
    assert!(!leaf.is_chain::<io::Error>());
    assert!(leaf.downcast_chain_ref::<io::Error>().is_none());
    assert!(leaf.downcast_inner_ref::<io::Error>().is_none());
    assert!(leaf.downcast_inner_ref::<TestError>().is_none());
    assert!(leaf.downcast_inner_mut::<io::Error>().is_none());
    assert!(leaf.downcast_chain_mut::<io::Error>().is_none());
    assert!(!leaf.is_chain_by_id(own));
    assert!(leaf.downcast_inner_ref_by_id(own).is_none());
    assert!(leaf.downcast_inner_mut_by_id(own).is_none());
    // the error itself is still there
    assert_eq!(leaf.inner().text(Style::Display), "entity not found");
    assert_eq!(
        leaf.inner().downcast_ref::<io::Error>().unwrap().kind(),
        io::ErrorKind::NotFound
    );
    assert!(leaf.inner().downcast_ref::<TestError>().is_none());
}
