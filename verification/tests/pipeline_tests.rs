//! The two schedulers end to end: isolation of failing probes, hostname
//! tagging, retry ordering, disconnection, and the full single-cycle
//! scenario.
use std::cell::Cell;
use std::cell::RefCell;

use uption::channel::message_channel;
use uption::channel::recv_message;
use uption::channel::send_message;
use uption::collectors::CollectorScheduler;
use uption::collectors::FixedCollector;
use uption::error::Error;
use uption::exporters::Exporter;
use uption::exporters::ExporterScheduler;
use uption::message::Message;
use uption::value::PayloadValue;

fn sample(source: &str, metric: &str, value: u64) -> Message {
    let mut m = Message::new(source);
    m.insert_metric(metric, PayloadValue::Uint64(value));
    m
}

/// A sink that fails its first `failures` calls, recording every attempt's
/// source name.
struct ScriptedSink {
    log: RefCell<Vec<String>>,
    failures: Cell<u32>,
}

impl ScriptedSink {
    fn new(failures: u32) -> ScriptedSink {
        ScriptedSink { log: RefCell::new(Vec::new()), failures: Cell::new(failures) }
    }
}

impl Exporter for ScriptedSink {
    fn export(&self, message: &Message) -> Result<(), Error> {
        self.log.borrow_mut().push(message.source().clone());
        let left = self.failures.get();
        if left > 0 {
            self.failures.set(left - 1);
            return Err(Error::new("sink down"));
        }
        Ok(())
    }
}

#[test]
fn end_to_end_single_cycle() {
    let probe = FixedCollector::succeeding(vec![sample("ping", "latency", 12)]);
    let mut scheduler = CollectorScheduler::new(1);
    scheduler.register(probe);
    assert_eq!(scheduler.probe_count(), 1);

    let (tx, rx) = message_channel();
    let report = scheduler.run_cycle(&tx, "test-host");
    drop(tx);
    assert!(!report.disconnected);
    assert_eq!(report.probes_run, 1);
    assert_eq!(report.sent, 1);

    let msg = recv_message(&rx).expect("the forwarded message");
    assert_eq!(msg.source(), "ping");
    assert_eq!(msg.get_tag("hostname").unwrap(), "test-host");
    match msg.get_metric("latency") {
        Some(PayloadValue::Uint64(v)) => assert_eq!(*v, 12),
        _ => panic!("latency metric missing or mistyped"),
    }
    assert!(recv_message(&rx).is_none());
}

#[test]
fn failing_probe_is_isolated() {
    let mut scheduler = CollectorScheduler::new(1);
    scheduler.register(FixedCollector::succeeding(vec![sample("first", "v", 1)]));
    scheduler.register(FixedCollector::failing(Error::new("probe down")));
    scheduler.register(FixedCollector::succeeding(vec![sample("third", "v", 3)]));

    let (tx, rx) = message_channel();
    let report = scheduler.run_cycle(&tx, "host-a");
    drop(tx);
    assert!(!report.disconnected);
    assert_eq!(report.probes_run, 3);
    assert_eq!(report.sent, 2);

    let first = recv_message(&rx).expect("first message");
    let second = recv_message(&rx).expect("second message");
    assert_eq!(first.source(), "first");
    assert_eq!(second.source(), "third");
    assert!(recv_message(&rx).is_none());
}

#[test]
fn every_channel_message_bears_the_hostname() {
    let mut scheduler = CollectorScheduler::new(1);
    scheduler.register(
        FixedCollector::succeeding(vec![sample("a", "v", 1), sample("b", "v", 2)]),
    );
    scheduler.register(FixedCollector::succeeding(vec![sample("c", "v", 3)]));

    let (tx, rx) = message_channel();
    scheduler.run_cycle(&tx, "the-host");
    drop(tx);
    let mut seen: usize = 0;
    while let Some(msg) = recv_message(&rx) {
        assert_eq!(msg.get_tag("hostname").unwrap(), "the-host");
        seen += 1;
    }
    assert_eq!(seen, 3);
}

#[test]
fn producer_stops_when_consumer_gone() {
    let mut scheduler = CollectorScheduler::new(1);
    scheduler.register(FixedCollector::succeeding(vec![sample("a", "v", 1)]));
    let (tx, rx) = message_channel();
    drop(rx);
    let report = scheduler.run_cycle(&tx, "h");
    assert!(report.disconnected);
}

#[test]
fn retry_ordering() {
    let (tx, rx) = message_channel();
    assert!(send_message(&tx, sample("m1", "v", 1)).is_ok());
    assert!(send_message(&tx, sample("m2", "v", 2)).is_ok());
    drop(tx);

    let mut scheduler = ExporterScheduler::new(ScriptedSink::new(1));
    let mut steps: u32 = 0;
    while !scheduler.run_once(&rx) {
        steps += 1;
        assert!(steps < 100, "the consumer loop failed to finish");
    }
    assert!(!scheduler.has_pending());
    let sink = scheduler.into_exporter();
    let expected =
        vec![String::from("m1"), String::from("m1"), String::from("m2")];
    assert_eq!(sink.log.into_inner(), expected);
}

#[test]
fn disconnection_terminates_after_drain() {
    let (tx, rx) = message_channel();
    assert!(send_message(&tx, sample("only", "v", 1)).is_ok());
    drop(tx);

    let mut scheduler = ExporterScheduler::new(ScriptedSink::new(1));
    let mut steps: u32 = 0;
    while !scheduler.run_once(&rx) {
        steps += 1;
        assert!(steps < 100, "the consumer loop failed to finish");
    }
    // the buffered retry was delivered before the loop ended
    assert!(!scheduler.has_pending());
    let sink = scheduler.into_exporter();
    assert_eq!(sink.log.into_inner().len(), 2);
}

#[test]
fn streak_counter_after_failures_and_success() {
    let (tx, rx) = message_channel();
    assert!(send_message(&tx, sample("m", "v", 1)).is_ok());
    drop(tx);

    // three failed attempts on the same message, then one success
    let mut scheduler = ExporterScheduler::new(ScriptedSink::new(3));
    let mut steps: u32 = 0;
    while !scheduler.run_once(&rx) {
        steps += 1;
        assert!(steps < 100, "the consumer loop failed to finish");
    }
    assert_eq!(scheduler.error_count(), 2);
}
