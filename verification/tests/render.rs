use chainerror::Cause;
use chainerror::Context;
use chainerror::Erased;
use chainerror::Error;
use chainerror::ErrorDown;
use chainerror::IntoCause;
use chainerror::Render;
use chainerror::Style;
use std::any::TypeId;
use std::fmt;
use std::io;

#[derive(Clone)]
struct CustomError(pub String);

impl fmt::Display for CustomError {
    fn fmt(&self, f: &mut fmt::Formatter) -> fmt::Result {
        f.write_str(&self.0)
    }
}

impl fmt::Debug for CustomError {
    fn fmt(&self, f: &mut fmt::Formatter) -> fmt::Result {
        f.write_str("CustomError(")?;
        f.write_str(&self.0)?;
        f.write_str(")")
    }
}

impl std::error::Error for CustomError {}

/// A kind that renders differently in each style.
struct Fourfold;

impl fmt::Display for Fourfold {
    fn fmt(&self, f: &mut fmt::Formatter) -> fmt::Result {
        if f.alternate() {
            f.write_str("display, alternate")
        } else {
            f.write_str("display")
        }
    }
}

impl fmt::Debug for Fourfold {
    fn fmt(&self, f: &mut fmt::Formatter) -> fmt::Result {
        if f.alternate() {
            f.write_str("debug,\nalternate")
        } else {
            f.write_str("debug")
        }
    }
}

#[test]
fn test_error_display_and_debug() {
    let err = Error::new(
        CustomError("test error".into()),
        None,
        Some("src/lib.rs:100".into()),
    );

    // Test Display formatting
    assert_eq!(err.display(), "test error");

    // Test alternate Display formatting
    assert_eq!(err.display_alternate(), "test error");

    // Test Debug formatting
    let debug_output = err.debug();
    assert!(debug_output.contains("test error"));
    assert!(debug_output.contains("src/lib.rs:100"));
    assert_eq!(debug_output, "src/lib.rs:100: CustomError(test error)");
}

#[test]
fn terse_text_is_the_kind_alone() {
    let alone = Error::new("func1 error", None, None);
    assert_eq!(alone.display(), "func1 error");

    let one: Result<(), io::Error> = Err(io::Error::from(io::ErrorKind::NotFound));
    let one = one.context("func1 error", "a.rs:1").unwrap_err();
    assert_eq!(one.display(), "func1 error");
    assert_eq!(one.render(Style::Display), "func1 error");

    let deep: Result<(), io::Error> = Err(io::Error::from(io::ErrorKind::NotFound));
    let deep = deep
        .context("func3 error", "a.rs:1")
        .context("func2 error", "a.rs:2")
        .context("func1 error", "a.rs:3")
        .unwrap_err();
    assert_eq!(deep.display(), "func1 error");
    // and so it is once the link is erased
    let erased = deep.into_cause();
    assert_eq!(erased.display(), "func1 error");
    assert_eq!(erased.source().unwrap().display(), "func2 error");
}

#[test]
fn diagnostic_text_shows_the_whole_chain() {
    let io_not_found = io::Error::from(io::ErrorKind::NotFound);
    let native = format!("{:?}", io_not_found);
    let err = Result::<(), io::Error>::Err(io_not_found)
        .context("inner ctx", "src/inner.rs:7")
        .context("outer ctx", "src/outer.rs:9")
        .unwrap_err();

    let text = err.debug();
    let outer = text.find("outer ctx").unwrap();
    let first = outer + text[outer..].find("Caused by:").unwrap();
    let inner = first + text[first..].find("inner ctx").unwrap();
    let second = inner + text[inner..].find("Caused by:").unwrap();
    let leaf = second + text[second..].find(native.as_str()).unwrap();
    assert!(outer < first && first < inner && inner < second && second < leaf);

    assert_eq!(
        text,
        "src/outer.rs:9: outer ctx\nCaused by:\nsrc/inner.rs:7: inner ctx\nCaused by:\nKind(NotFound)"
    );
    // the erased link says the same
    assert_eq!(err.into_cause().debug(), text);
}

#[test]
fn bare_text_is_shown_as_it_is() {
    let slice = Error::new("a \"quoted\" word", None, None);
    assert_eq!(slice.debug(), "a \"quoted\" word");
    let string = Error::new(String::from("a \"quoted\" word"), None, None);
    assert_eq!(string.debug(), "a \"quoted\" word");
    // any other kind is shown in its diagnostic form
    let other = Error::new(CustomError("x".into()), None, None);
    assert_eq!(other.debug(), "CustomError(x)");
    let number = Error::new(7u8, None, Some("n.rs:1".into()));
    assert_eq!(number.debug(), "n.rs:1: 7");
    // erased, too
    assert_eq!(slice.into_cause().debug(), "a \"quoted\" word");
    assert_eq!(string.into_cause().debug(), "a \"quoted\" word");
    assert_eq!(other.into_cause().debug(), "CustomError(x)");
    // in the structured form bare text is quoted like any string
    let structured = Error::new("word", None, None).debug_alternate();
    assert_eq!(
        structured,
        "Error {\n    occurrence: None,\n    kind: \"word\",\n    source: None,\n}"
    );
}

#[test]
fn each_style_uses_the_right_text_of_the_kind() {
    let err = Result::<(), Fourfold>::Err(Fourfold)
        .context(Fourfold, "here")
        .unwrap_err();
    assert_eq!(err.render(Style::Display), "display");
    assert_eq!(
        err.render(Style::DisplayAlternate),
        "display\nCaused by:\n  display, alternate"
    );
    assert_eq!(err.render(Style::Debug), "here: debug\nCaused by:\ndebug");
    assert_eq!(
        err.render(Style::DebugAlternate),
        "Error {\n    occurrence: Some(\n        \"here\",\n    ),\n    kind: debug,\n    alternate,\n    source: Some(\n        debug,\n        alternate,\n    ),\n}"
    );

    // wrapped once more, the link renders through its erased texts
    let outer = Result::<(), _>::Err(err).context("outer", "there").unwrap_err();
    assert_eq!(
        outer.render(Style::DisplayAlternate),
        "outer\nCaused by:\n  display\nCaused by:\n  display, alternate"
    );
    assert_eq!(
        outer.render(Style::Debug),
        "there: outer\nCaused by:\nhere: debug\nCaused by:\ndebug"
    );
    let cause = outer.source().unwrap();
    assert_eq!(cause.render(Style::Display), "display");
    assert_eq!(cause.display_alternate(), "display\nCaused by:\n  display, alternate");
    assert_eq!(cause.debug(), "here: debug\nCaused by:\ndebug");
    assert_eq!(
        cause.debug_alternate(),
        "Error {\n    occurrence: Some(\n        \"here\",\n    ),\n    kind: debug,\n    alternate,\n    source: Some(\n        debug,\n        alternate,\n    ),\n}"
    );
    assert_eq!(cause.inner().text(Style::DisplayAlternate), "display, alternate");
    assert_eq!(cause.inner().text(Style::DebugAlternate), "debug,\nalternate");
}

#[test]
fn the_place_is_quoted_in_the_structured_text() {
    let err = Error::new(7u8, None, Some("a \"b\"\\c".into()));
    assert_eq!(
        err.debug_alternate(),
        "Error {\n    occurrence: Some(\n        \"a \\\"b\\\"\\\\c\",\n    ),\n    kind: 7,\n    source: None,\n}"
    );
    assert_eq!(err.debug(), "a \"b\"\\c: 7");
}

#[test]
fn an_erased_value_keeps_its_texts() {
    let erased = Erased::of(Fourfold);
    assert_eq!(erased.type_id(), TypeId::of::<Fourfold>());
    assert!(erased.is(TypeId::of::<Fourfold>()));
    assert!(!erased.is(TypeId::of::<CustomError>()));
    assert_eq!(erased.text(Style::Display), "display");
    assert_eq!(erased.text(Style::DisplayAlternate), "display, alternate");
    assert_eq!(erased.text(Style::Debug), "debug");
    assert_eq!(erased.text(Style::DebugAlternate), "debug,\nalternate");

    let made = Erased::new(
        TypeId::of::<u8>(),
        "a".into(),
        "b".into(),
        "c".into(),
        "d".into(),
    );
    assert_eq!(made.type_id(), TypeId::of::<u8>());
    assert_eq!(made.text(Style::Display), "a");
    assert_eq!(made.text(Style::DisplayAlternate), "b");
    assert_eq!(made.text(Style::Debug), "c");
    assert_eq!(made.text(Style::DebugAlternate), "d");
    // made of texts alone, it keeps no value; erased whole, it does
    assert!(made.downcast_ref::<u8>().is_none());
    assert!(erased.downcast_ref::<Fourfold>().is_some());
    assert!(erased.downcast_ref::<CustomError>().is_none());
    let by_hand = Erased::keeping(TypeId::of::<u16>(), CustomError("kept".into()));
    assert_eq!(by_hand.type_id(), TypeId::of::<u16>());
    assert_eq!(by_hand.text(Style::Debug), "CustomError(kept)");
    assert_eq!(by_hand.downcast_ref::<CustomError>().unwrap().0, "kept");
}

#[test]
fn an_error_that_is_no_link_has_its_own_texts() {
    let leaf = Cause::of(Fourfold);
    assert!(!leaf.is_link());
    assert_eq!(leaf.display(), "display");
    assert_eq!(leaf.display_alternate(), "display, alternate");
    assert_eq!(leaf.debug(), "debug");
    assert_eq!(leaf.debug_alternate(), "debug,\nalternate");

    // its own cause is walked, but is no part of its texts
    let upper = Cause::foreign(Erased::of(CustomError("upper".into())), Some(Box::new(leaf)));
    assert_eq!(upper.debug(), "CustomError(upper)");
    assert_eq!(upper.display_alternate(), "upper");
    assert_eq!(upper.source().unwrap().display(), "display");
    assert_eq!(upper.root_cause().display(), "display");
    assert!(upper.find_cause::<Fourfold>().is_some());
    assert!(upper.find_chain_cause::<Fourfold>().is_none());
    assert!(upper.find_kind_or_cause::<Fourfold>().is_some());
    assert!(!upper.is_chain::<CustomError>());
    assert!(upper.downcast_chain_ref::<CustomError>().is_none());
    assert!(upper.downcast_inner_ref::<CustomError>().is_none());
    assert_eq!(upper.inner().text(Style::Display), "upper");
    assert_eq!(upper.inner().downcast_ref::<CustomError>().unwrap().0, "upper");
}

#[test]
fn a_link_can_be_a_kind() {
    let inner = Error::new("inner kind", None, Some("in.rs:1".into()));
    let err = Result::<(), io::Error>::Err(io::Error::from(io::ErrorKind::NotFound))
        .context(inner, "out.rs:2")
        .unwrap_err();
    assert_eq!(err.display(), "inner kind");
    assert_eq!(err.debug(), "out.rs:2: in.rs:1: inner kind\nCaused by:\nKind(NotFound)");
    // a search walks the causes and does not look into the kind
    assert!(err.is_chain::<Error<&'static str>>());
    assert!(err.find_chain_cause::<&'static str>().is_none());
    assert_eq!(*err.kind().kind(), "inner kind");
}

#[test]
fn the_kind_can_be_changed_through_the_link() {
    let mut err = Result::<(), io::Error>::Err(io::Error::from(io::ErrorKind::NotFound))
        .context(CustomError("before".into()), "m.rs:1")
        .unwrap_err();
    assert!(err.downcast_inner_mut::<io::Error>().is_none());
    err.downcast_inner_mut::<CustomError>().unwrap().0 = "after".into();
    assert_eq!(err.kind().0, "after");
    assert_eq!(err.display(), "after");
    assert_eq!(err.debug(), "m.rs:1: CustomError(after)\nCaused by:\nKind(NotFound)");

    let link = err.downcast_chain_mut::<CustomError>().unwrap();
    link.downcast_inner_mut::<CustomError>().unwrap().0 = "again".into();
    assert_eq!(err.kind().0, "again");
    assert_eq!(err.occurrence(), Some("m.rs:1"));
    assert!(err.source().is_some());

    // an erased link hands out its erased kind
    let mut erased = err.into_cause();
    assert!(erased.downcast_chain_mut::<io::Error>().is_none());
    assert!(erased.downcast_inner_mut::<io::Error>().is_none());
    let kind = erased.downcast_inner_mut::<CustomError>().unwrap();
    assert_eq!(kind.text(Style::Display), "again");
    *kind = Erased::of("replaced");
    assert_eq!(erased.display(), "replaced");
    assert!(erased.is_chain::<&'static str>());
    assert_eq!(erased.occurrence(), Some("m.rs:1"));
    let link = erased.downcast_chain_mut::<&'static str>().unwrap();
    assert_eq!(link.source().unwrap().debug(), "Kind(NotFound)");
}
