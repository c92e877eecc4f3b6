//! The pipeline's error value and its annotations.
use uption::collectors::CollectorError;
use uption::error::Error;
use uption::error::ResultError;

#[test]
fn bare_error_renders_with_empty_annotations() {
    let err = Error::new("it broke");
    assert!(err.source().is_none());
    assert!(err.cause().is_none());
    assert!(err.context().is_none());
    assert_eq!(err.render(), "it broke ()");
}

#[test]
fn annotations_render_in_order() {
    let err = Error::new("it broke")
        .set_source("some_probe")
        .set_context("while polling")
        .set_cause("socket closed");
    assert_eq!(err.source().as_deref(), Some("some_probe"));
    assert_eq!(err.context().as_deref(), Some("while polling"));
    assert_eq!(err.cause().as_deref(), Some("socket closed"));
    assert_eq!(
        err.render(),
        "it broke (source=\"some_probe\" context=\"while polling\" cause=\"socket closed\")"
    );
}

#[test]
fn partial_annotations_render_without_gaps() {
    let err = Error::new("it broke").set_context("while polling");
    assert_eq!(err.render(), "it broke (context=\"while polling\")");
    let err = Error::new("it broke").set_cause("socket closed");
    assert_eq!(err.render(), "it broke (cause=\"socket closed\")");
}

#[test]
fn result_annotations_touch_only_the_error() {
    let ok: Result<u32, Error> = Ok(7);
    assert_eq!(ok.set_source("probe").unwrap(), 7);
    let err: Result<u32, Error> = Err(Error::new("down"));
    let err = err.set_source("probe").set_context("cycle one");
    match err {
        Err(e) => {
            assert_eq!(e.source().as_deref(), Some("probe"));
            assert_eq!(e.context().as_deref(), Some("cycle one"));
        },
        Ok(_) => panic!("the error must stay an error"),
    }
}

#[test]
fn collector_error_rendering() {
    let c = CollectorError::ConnectionError(String::from("unreachable"));
    assert_eq!(c.render(), "ConnectionError: unreachable");
    let c = CollectorError::CollectionError(String::from("malformed output"));
    assert_eq!(c.render(), "CollectionError: malformed output");
}
