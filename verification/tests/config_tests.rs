//! The configuration validation rules, one rejected input per rule.
use uption::config::ConfigError;
use uption::config::ExporterSelection;
use uption::config::InfluxDbVersion;
use uption::config::Timeout;
use uption::config::UptionConfig;
use uption::url::Host;
use uption::url::HttpUrl;
use uption::url::Ipv4Address;

fn message_text(e: &ConfigError) -> String {
    match e {
        ConfigError::Message(m) => m.clone(),
        ConfigError::NotFound(p) => panic!("expected a Message error, got NotFound({})", p),
    }
}

fn not_found_property(e: &ConfigError) -> String {
    match e {
        ConfigError::NotFound(p) => p.clone(),
        ConfigError::Message(m) => panic!("expected a NotFound error, got Message({})", m),
    }
}

#[test]
fn default_config_is_valid() {
    let config = UptionConfig::default();
    assert!(config.validate().is_ok());
    assert_eq!(config.general.hostname, "uption-host");
    assert_eq!(config.collectors.interval, 300);
    assert!(matches!(config.exporters.exporter, ExporterSelection::Stdout));
}

#[test]
fn hostname_over_255_bytes_is_rejected() {
    let mut config = UptionConfig::default();
    config.general.hostname = "h".repeat(256);
    let err = config.validate().expect_err("an oversized hostname");
    assert_eq!(message_text(&err), "hostname maximum length is 255 bytes");
}

#[test]
fn empty_log_file_is_rejected() {
    let mut config = UptionConfig::default();
    config.logging.log_file = Some(String::new());
    let err = config.validate().expect_err("an empty log file name");
    assert_eq!(message_text(&err), "logging.log_file can't be empty");
}

#[test]
fn out_of_range_interval_is_rejected() {
    let mut config = UptionConfig::default();
    config.collectors.interval = 0;
    let err = config.validate().expect_err("a zero interval");
    assert_eq!(
        message_text(&err),
        "collectors.interval minimum value is 1 and maximum value is 86400"
    );
    config.collectors.interval = 86401;
    assert!(config.validate().is_err());
    config.collectors.interval = 86400;
    assert!(config.validate().is_ok());
}

#[test]
fn enabled_dns_needs_servers_and_hosts() {
    let mut config = UptionConfig::default();
    config.collectors.dns.enabled = true;
    let err = config.validate().expect_err("no DNS servers");
    assert_eq!(message_text(&err), "dns.dns_servers can't be empty");
    config.collectors.dns.dns_servers = vec![Ipv4Address::new(8, 8, 8, 8)];
    let err = config.validate().expect_err("no DNS hosts");
    assert_eq!(message_text(&err), "dns.hosts can't be empty");
    config.collectors.dns.hosts = vec![Host::parse("example.com").unwrap()];
    assert!(config.validate().is_ok());
}

#[test]
fn enabled_http_needs_urls() {
    let mut config = UptionConfig::default();
    config.collectors.http.enabled = true;
    let err = config.validate().expect_err("no URLs");
    assert_eq!(message_text(&err), "http.urls can't be empty");
    config.collectors.http.urls = vec![HttpUrl::parse("https://example.com").unwrap()];
    assert!(config.validate().is_ok());
}

#[test]
fn enabled_ping_needs_hosts() {
    let mut config = UptionConfig::default();
    config.collectors.ping.enabled = true;
    let err = config.validate().expect_err("no hosts");
    assert_eq!(message_text(&err), "ping.hosts can't be empty");
    config.collectors.ping.hosts = vec![Host::parse("localhost").unwrap()];
    assert!(config.validate().is_ok());
}

#[test]
fn influxdb_selection_needs_credentials() {
    let mut config = UptionConfig::default();
    config.exporters.exporter = ExporterSelection::InfluxDb;
    let err = config.validate().expect_err("no URL");
    assert_eq!(not_found_property(&err), "influxdb.url");

    config.exporters.influxdb.url = Some(HttpUrl::parse("http://localhost:8086").unwrap());
    let err = config.validate().expect_err("v2 without a bucket");
    assert_eq!(not_found_property(&err), "influxdb.bucket");
    config.exporters.influxdb.bucket = String::from("telemetry");
    let err = config.validate().expect_err("v2 without an organization");
    assert_eq!(not_found_property(&err), "influxdb.organization");
    config.exporters.influxdb.organization = String::from("ops");
    let err = config.validate().expect_err("v2 without a token");
    assert_eq!(not_found_property(&err), "influxdb.token");
    config.exporters.influxdb.token = String::from("SECRET-REDACTED");
    assert!(config.validate().is_ok());

    config.exporters.influxdb.version = InfluxDbVersion::V1;
    let err = config.validate().expect_err("v1 without a database");
    assert_eq!(not_found_property(&err), "influxdb.database");
    config.exporters.influxdb.database = String::from("telemetry");
    let err = config.validate().expect_err("v1 without a user name");
    assert_eq!(not_found_property(&err), "influxdb.username");
    config.exporters.influxdb.username = String::from("agent");
    let err = config.validate().expect_err("v1 without a password");
    assert_eq!(not_found_property(&err), "influxdb.password");
    config.exporters.influxdb.password = String::from("SECRET-REDACTED");
    assert!(config.validate().is_ok());
}

#[test]
fn config_error_rendering() {
    let m = ConfigError::Message(String::from("broken"));
    assert_eq!(m.render(), "broken");
    let n = ConfigError::NotFound(String::from("influxdb.url"));
    assert_eq!(n.render(), "configuration property \"influxdb.url\" not found");
}

#[test]
fn timeout_default_and_get() {
    let t = Timeout::default();
    assert_eq!(t.get(), 30);
    assert_eq!(Timeout(7).get(), 7);
}
