//! The message data model: construction, sorted tags and metrics, lookup,
//! rendering.
use uption::message::Message;
use uption::value::PayloadValue;

#[test]
fn test_display_message() {
    let mut msg = Message::new("measurement");
    msg.insert_tag("tag1", "1");
    msg.insert_tag("tag2", "2");
    msg.insert_metric("field1", PayloadValue::text("1"));
    msg.insert_metric("field2", PayloadValue::text("2"));

    assert_eq!(
        msg.render(),
        format!(
            "[{}, source=measurement tag1=1 tag2=2] field1=1 field2=2",
            msg.timestamp_rfc3339()
        )
    );
}

#[test]
fn tags_sort_and_replace() {
    let mut msg = Message::new("m");
    msg.insert_tag("beta", "2");
    msg.insert_tag("alpha", "1");
    msg.insert_tag("beta", "3");
    assert_eq!(msg.format_tags(), "alpha=1 beta=3");
    assert_eq!(msg.get_tag("alpha").unwrap(), "1");
    assert_eq!(msg.get_tag("beta").unwrap(), "3");
    assert!(msg.get_tag("gamma").is_none());
    assert_eq!(msg.tags().len(), 2);
}

#[test]
fn metrics_sort_and_lookup() {
    let mut msg = Message::new("m");
    msg.insert_metric("z", PayloadValue::Uint8(9));
    msg.insert_metric("a", PayloadValue::Int32(-7));
    assert_eq!(msg.format_metrics(), "a=-7 z=9");
    match msg.get_metric("z") {
        Some(PayloadValue::Uint8(v)) => assert_eq!(*v, 9),
        _ => panic!("metric z missing or mistyped"),
    }
    assert!(msg.get_metric("q").is_none());
    assert_eq!(msg.metric_count(), 2);
}

#[test]
fn value_rendering_is_natural_decimal() {
    assert_eq!(PayloadValue::Uint8(0).render(), "0");
    assert_eq!(PayloadValue::Uint16(65535).render(), "65535");
    assert_eq!(PayloadValue::Int8(-128).render(), "-128");
    assert_eq!(PayloadValue::Int64(-1).render(), "-1");
    assert_eq!(
        PayloadValue::Uint128(340282366920938463463374607431768211455).render(),
        "340282366920938463463374607431768211455"
    );
    assert_eq!(
        PayloadValue::Int128(-170141183460469231731687303715884105728).render(),
        "-170141183460469231731687303715884105728"
    );
    assert_eq!(PayloadValue::text("raw text, unquoted").render(), "raw text, unquoted");
}

#[test]
fn timestamp_renders_as_utc_rfc3339() {
    let msg = Message::new("m");
    let ts = msg.timestamp_rfc3339();
    assert!(ts.contains('T'));
    assert!(ts.ends_with("+00:00"));
    assert!(msg.timestamp() > 0);
}

#[test]
fn sink_readiness_requires_a_metric() {
    let mut msg = Message::new("m");
    assert!(!msg.ready());
    msg.insert_metric("x", PayloadValue::Uint8(1));
    assert!(msg.ready());
}

#[test]
fn clone_preserves_the_sample() {
    let mut msg = Message::new("m");
    msg.insert_tag("t", "v");
    msg.insert_metric("x", PayloadValue::Uint64(5));
    let copy = msg.clone();
    assert_eq!(copy.render(), msg.render());
    assert_eq!(copy.timestamp(), msg.timestamp());
}
