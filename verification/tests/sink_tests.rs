//! The sinks' rendering and response handling, and the configuration-
//! driven sink registry.
use uption::config::ExporterSelection;
use uption::config::InfluxDbVersion;
use uption::config::Timeout;
use uption::config::UptionConfig;
use uption::exporters::influxdb::message_to_line_protocol;
use uption::exporters::influxdb_v1::InfluxDbv1;
use uption::exporters::influxdb_v2::InfluxDbv2;
use uption::exporters::logger::Logger;
use uption::exporters::stdout::Stdout;
use uption::exporters::ExporterScheduler;
use uption::exporters::SinkKind;
use uption::message::Message;
use uption::url::HttpUrl;
use uption::value::PayloadValue;

fn four_field_message() -> Message {
    let mut msg = Message::new("measurement");
    msg.insert_tag("tag1", "1");
    msg.insert_tag("tag2", "2");
    msg.insert_metric("field1", PayloadValue::text("1"));
    msg.insert_metric("field2", PayloadValue::text("2"));
    msg
}

#[test]
fn stdout_test_format_message() {
    let msg = four_field_message();
    assert_eq!(
        Stdout::format_message(&msg),
        format!(
            "[{}] [source=\"measurement\" tag1=\"1\" tag2=\"2\"] field1=\"1\" field2=\"2\"",
            msg.timestamp_rfc3339()
        )
    );
}

#[test]
fn logger_test_format_message() {
    let msg = four_field_message();
    assert_eq!(
        Logger::format_message(&msg),
        format!(
            "timestamp=\"{}\" source=\"measurement\" tag1=\"1\" tag2=\"2\" field1=\"1\" field2=\"2\"",
            msg.timestamp_rfc3339()
        )
    );
}

#[test]
fn logger_format_leaves_the_hostname_out() {
    let mut msg = four_field_message();
    msg.insert_tag("hostname", "the-host");
    let line = Logger::format_message(&msg);
    assert!(!line.contains("hostname"));
    assert!(line.contains("tag1=\"1\""));
}

#[test]
fn line_protocol_rendering() {
    let mut msg = Message::new("measurement");
    msg.insert_tag("tag1", "1");
    msg.insert_tag("tag2", "2");
    msg.insert_metric("field1", PayloadValue::text("foo"));
    msg.insert_metric("field2", PayloadValue::Uint8(2));
    assert_eq!(
        message_to_line_protocol(&msg),
        format!("measurement,tag1=1,tag2=2 field1=foo,field2=2 {}", msg.timestamp())
    );
}

#[test]
fn influxdb_v1_builds_its_write_url() {
    let base = HttpUrl::parse("http://localhost:8086").unwrap();
    let sink = InfluxDbv1::new(&base, "telemetry", "agent", "SECRET-REDACTED", Timeout(9));
    assert_eq!(sink.url_str(), "http://localhost:8086/write?db=telemetry&precision=ms");
    assert_eq!(sink.username_str(), "agent");
    assert_eq!(sink.timeout_secs(), 9);
}

#[test]
fn influxdb_v2_builds_its_write_url_and_token() {
    let base = HttpUrl::parse("http://localhost:8086").unwrap();
    let sink = InfluxDbv2::new(&base, "bucket", "org", "SECRET-REDACTED", Timeout(9));
    assert_eq!(
        sink.url_str(),
        "http://localhost:8086/api/v2/write?bucket=bucket&org=org&precision=ms"
    );
    assert_eq!(sink.format_token(), "Token SECRET-REDACTED");
    assert_eq!(sink.timeout_secs(), 9);
}

#[test]
fn influxdb_v1_response_handling() {
    let base = HttpUrl::parse("http://localhost:8086").unwrap();
    let sink = InfluxDbv1::new(&base, "db", "u", "p", Timeout(1));
    assert!(sink.handle_response_errors(204, "").is_ok());
    // a permanently rejected payload is dropped, not retried
    assert!(sink.handle_response_errors(400, "{\"error\": \"bad line\"}").is_ok());
    let err = sink
        .handle_response_errors(500, "{\"error\": \"error message\"}")
        .expect_err("a retried failure");
    assert_eq!(err.context().as_deref(), Some("error message"));
    assert!(err.cause().is_none());
    assert_eq!(
        err.render(),
        "InfluxDB server returned unexpected HTTP status '500' (context=\"error message\")"
    );
    let err = sink.handle_response_errors(503, "no json").expect_err("a retried failure");
    assert!(err.context().is_none());
}

#[test]
fn influxdb_v2_response_handling() {
    let base = HttpUrl::parse("http://localhost:8086").unwrap();
    let sink = InfluxDbv2::new(&base, "b", "o", "t", Timeout(1));
    assert!(sink.handle_response_errors(204, "").is_ok());
    assert!(sink.handle_response_errors(400, "{\"message\": \"bad line\"}").is_ok());
    let err = sink
        .handle_response_errors(500, "{\"message\": \"error message\"}")
        .expect_err("a retried failure");
    assert_eq!(err.context().as_deref(), Some("error message"));
}

#[test]
fn sink_registry_from_config() {
    let mut config = UptionConfig::default();
    let scheduler = ExporterScheduler::from_config(&config);
    assert!(matches!(scheduler.into_exporter(), SinkKind::Stdout(_)));

    config.exporters.exporter = ExporterSelection::Logger;
    let scheduler = ExporterScheduler::from_config(&config);
    assert!(matches!(scheduler.into_exporter(), SinkKind::Logger(_)));

    config.exporters.exporter = ExporterSelection::InfluxDb;
    config.exporters.influxdb.url = Some(HttpUrl::parse("http://localhost:8086").unwrap());
    config.exporters.influxdb.bucket = String::from("b");
    config.exporters.influxdb.organization = String::from("o");
    config.exporters.influxdb.token = String::from("t");
    let scheduler = ExporterScheduler::from_config(&config);
    match scheduler.into_exporter() {
        SinkKind::InfluxDbV2(v2) => assert_eq!(
            v2.url_str(),
            "http://localhost:8086/api/v2/write?bucket=b&org=o&precision=ms"
        ),
        _ => panic!("the v2 sink was selected"),
    }

    config.exporters.influxdb.version = InfluxDbVersion::V1;
    config.exporters.influxdb.database = String::from("d");
    config.exporters.influxdb.username = String::from("u");
    config.exporters.influxdb.password = String::from("p");
    let scheduler = ExporterScheduler::from_config(&config);
    assert!(matches!(scheduler.into_exporter(), SinkKind::InfluxDbV1(_)));
}
