//! The probes' verified halves: the ping command line and output parser,
//! the HTTP and DNS sample builders, the wireless sample builders, and the
//! configuration-driven probe registry.
use uption::collectors::dns::Dns;
use uption::collectors::http::HTTP;
use uption::collectors::ping::Ping;
use uption::collectors::wireless::channel_width_to_number;
use uption::collectors::wireless::interface_message;
use uption::collectors::wireless::messages_from_interfaces;
use uption::collectors::wireless::station_message;
use uption::collectors::wireless::ChannelWidth;
use uption::collectors::wireless::InterfaceData;
use uption::collectors::wireless::RateData;
use uption::collectors::wireless::StationData;
use uption::collectors::CollectorScheduler;
use uption::config::Timeout;
use uption::config::UptionConfig;
use uption::url::Host;
use uption::url::HttpUrl;
use uption::url::Ipv4Address;
use uption::value::PayloadValue;

fn ping_output() -> &'static str {
    "PING localhost (127.0.0.1) 56(84) bytes of data.\n\n--- 127.0.0.1 ping statistics ---\n1 packets transmitted, 1 received, 0% packet loss, time 0ms\nrtt min/avg/max/mdev = 10.192/10.192/10.192/0.000 ms"
}

#[test]
fn ping_command_line() {
    let ping = Ping::new(Host::parse("localhost").unwrap(), Timeout(1));
    assert_eq!(ping.command_line(), "ping localhost -q -c 1 -w 1");
}

#[test]
fn ping_output_parsing_successful() {
    let ping = Ping::new(Host::parse("localhost").unwrap(), Timeout(1));
    let latency = ping.parse_latency_from_ping_output(ping_output()).unwrap();
    assert_eq!(latency, "10.192");
}

#[test]
fn ping_output_parsing_failures() {
    let ping = Ping::new(Host::parse("localhost").unwrap(), Timeout(1));
    let err = ping.parse_latency_from_ping_output("").expect_err("empty output");
    assert_eq!(err.render(), "Empty ping command output ()");
    let err = ping
        .parse_latency_from_ping_output("garbage with no figure")
        .expect_err("no latency figure");
    assert!(err.render().starts_with("Failed to parse ping command output"));
}

#[test]
fn ping_collect_builds_the_sample() {
    let ping = Ping::new(Host::parse("localhost").unwrap(), Timeout(1));
    let mut messages = ping.collect_from_output(ping_output()).unwrap();
    assert_eq!(messages.len(), 1);
    let msg = messages.pop().unwrap();
    assert_eq!(msg.source(), "ping");
    match msg.get_metric("latency") {
        Some(PayloadValue::Text(t)) => assert_eq!(t, "10.192"),
        _ => panic!("latency metric missing or mistyped"),
    }
    assert_eq!(msg.get_tag("host").unwrap(), "localhost");
}

#[test]
fn ping_collect_attributes_failures() {
    let ping = Ping::new(Host::parse("localhost").unwrap(), Timeout(1));
    let err = ping.collect_from_output("nothing here").expect_err("no figure");
    assert_eq!(err.source().as_deref(), Some("ping_collector"));
}

#[test]
fn http_sample_carries_latency_status_and_url() {
    let http = HTTP::new(HttpUrl::parse("https://example.com").unwrap(), Timeout(5));
    assert_eq!(http.timeout_secs(), 5);
    let msg = http.message_from_response(143, 201);
    assert_eq!(msg.source(), "http");
    match msg.get_metric("latency") {
        Some(PayloadValue::Uint128(v)) => assert_eq!(*v, 143),
        _ => panic!("latency metric missing or mistyped"),
    }
    match msg.get_metric("status_code") {
        Some(PayloadValue::Uint16(v)) => assert_eq!(*v, 201),
        _ => panic!("status metric missing or mistyped"),
    }
    assert_eq!(msg.get_tag("url").unwrap(), "https://example.com/");
}

#[test]
fn dns_sample_carries_latency_server_and_host() {
    let dns = Dns::new(
        Ipv4Address::new(8, 8, 8, 8),
        Host::parse("www.example.com").unwrap(),
        Timeout(1),
    );
    let msg = dns.message_from_latency(21);
    assert_eq!(msg.source(), "dns");
    match msg.get_metric("latency") {
        Some(PayloadValue::Uint128(v)) => assert_eq!(*v, 21),
        _ => panic!("latency metric missing or mistyped"),
    }
    assert_eq!(msg.get_tag("dns_server").unwrap(), "8.8.8.8");
    assert_eq!(msg.get_tag("host").unwrap(), "www.example.com");
}

#[test]
fn channel_width_mapping() {
    assert_eq!(channel_width_to_number(&ChannelWidth::Width20NoHT), Some(20));
    assert_eq!(channel_width_to_number(&ChannelWidth::Width80P80), Some(160));
    assert_eq!(channel_width_to_number(&ChannelWidth::Width320), Some(320));
    assert_eq!(channel_width_to_number(&ChannelWidth::Unknown), None);
}

fn bare_station(mac: &str) -> StationData {
    StationData {
        mac: String::from(mac),
        signal: None,
        rx_bytes: None,
        tx_bytes: None,
        rx_packets: None,
        tx_packets: None,
        tx_retries: None,
        tx_failed: None,
        rx_bitrate: None,
        tx_bitrate: None,
    }
}

fn bare_interface(name: &str) -> InterfaceData {
    InterfaceData {
        name: String::from(name),
        mac: String::from("aa:bb:cc:dd:ee:ff"),
        ssid: None,
        frequency: None,
        channel_width: ChannelWidth::Unknown,
        tx_power: None,
        stations: Vec::new(),
    }
}

#[test]
fn nameless_or_metricless_interfaces_yield_nothing() {
    let mut nameless = bare_interface("");
    nameless.frequency = Some(2412);
    assert!(interface_message(&nameless).is_none());

    let metricless = bare_interface("wlan0");
    assert!(interface_message(&metricless).is_none());
}

#[test]
fn interface_sample_with_metrics() {
    let mut data = bare_interface("wlan0");
    data.ssid = Some(String::from("attic"));
    data.frequency = Some(2412);
    data.channel_width = ChannelWidth::Width40;
    let msg = interface_message(&data).expect("an interface sample");
    assert_eq!(msg.source(), "wireless_interface");
    assert_eq!(msg.get_tag("name").unwrap(), "wlan0");
    assert_eq!(msg.get_tag("interface_mac").unwrap(), "aa:bb:cc:dd:ee:ff");
    assert_eq!(msg.get_tag("ssid").unwrap(), "attic");
    match msg.get_metric("frequency") {
        Some(PayloadValue::Uint32(v)) => assert_eq!(*v, 2412),
        _ => panic!("frequency missing"),
    }
    match msg.get_metric("channel_width") {
        Some(PayloadValue::Uint32(v)) => assert_eq!(*v, 40),
        _ => panic!("channel width missing"),
    }
    assert!(msg.get_metric("tx_power").is_none());
}

#[test]
fn station_sample_with_metrics() {
    let mut data = bare_station("11:22:33:44:55:66");
    data.signal = Some(188);
    data.rx_bytes = Some(1024);
    data.tx_bitrate =
        Some(RateData { bitrate: 7200, mcs: 7, connection_type: String::from("ht") });
    let msg = station_message("aa:bb:cc:dd:ee:ff", &data).expect("a station sample");
    assert_eq!(msg.source(), "wireless_station");
    assert_eq!(msg.get_tag("interface_mac").unwrap(), "aa:bb:cc:dd:ee:ff");
    assert_eq!(msg.get_tag("station_mac").unwrap(), "11:22:33:44:55:66");
    match msg.get_metric("signal_strength") {
        Some(PayloadValue::Uint8(v)) => assert_eq!(*v, 188),
        _ => panic!("signal missing"),
    }
    match msg.get_metric("tx_connection_type") {
        Some(PayloadValue::Text(t)) => assert_eq!(t, "ht"),
        _ => panic!("connection type missing"),
    }
    assert!(station_message("aa", &bare_station("bb")).is_none());
}

#[test]
fn wireless_reading_yields_counted_samples() {
    let mut iface = bare_interface("wlan0");
    iface.frequency = Some(5180);
    let mut with_metric = bare_station("11:11:11:11:11:11");
    with_metric.tx_packets = Some(42);
    iface.stations = vec![with_metric, bare_station("22:22:22:22:22:22")];

    let skipped = bare_interface("");
    let readings = vec![iface, skipped];
    let messages = messages_from_interfaces(&readings);
    assert_eq!(messages.len(), 2);
    assert_eq!(messages[0].source(), "wireless_interface");
    assert_eq!(messages[1].source(), "wireless_station");
}

#[test]
fn probe_registry_from_config() {
    let mut config = UptionConfig::default();
    config.collectors.ping.enabled = true;
    config.collectors.ping.hosts =
        vec![Host::parse("a.example").unwrap(), Host::parse("b.example").unwrap()];
    config.collectors.dns.enabled = true;
    config.collectors.dns.dns_servers =
        vec![Ipv4Address::new(8, 8, 8, 8), Ipv4Address::new(1, 1, 1, 1)];
    config.collectors.dns.hosts = vec![Host::parse("c.example").unwrap()];
    config.collectors.wireless.enabled = true;
    let scheduler = CollectorScheduler::from_config(&config);
    // two ping probes, two DNS pairs, one wireless probe
    assert_eq!(scheduler.probe_count(), 5);
}
