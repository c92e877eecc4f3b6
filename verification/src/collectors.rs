//! The collection stage: a scheduler that runs every registered probe once
//! per cycle, tags each resulting message with the host's identity, and
//! forwards it on the hand-off channel. One probe's failure never disturbs
//! the others.
pub mod dns;
pub mod ping;
pub mod http;
pub mod wireless;

use vstd::prelude::*;

use crate::channel::send_message;
use crate::channel::sleep_ms;
use crate::error::Error;
use crate::message::ready_for_sink;
use crate::message::same_sample;
use crate::message::Message;

verus! {

/// The probe error taxonomy: the target could not be reached, or it was
/// reached but its answer could not be interpreted.
pub enum CollectorError {
    ConnectionError(String),
    CollectionError(String),
}

impl CollectorError {
    /// Renders the error with its kind as a prefix.
    pub fn render(&self) -> (r: String)
        ensures
            self matches CollectorError::ConnectionError(m) ==> r@ == "ConnectionError: "@ + m@,
            self matches CollectorError::CollectionError(m) ==> r@ == "CollectionError: "@ + m@,
    {
        let mut r: String = match self {
            CollectorError::ConnectionError(_) => "ConnectionError: ".to_owned(),
            CollectorError::CollectionError(_) => "CollectionError: ".to_owned(),
        };
        match self {
            CollectorError::ConnectionError(m) => r.append(m.as_str()),
            CollectorError::CollectionError(m) => r.append(m.as_str()),
        }
        r
    }
}

/// A pluggable measurement probe. Implementations promise what §producers
/// owe the pipeline: every message a successful pass returns is well formed
/// and carries at least one metric.
pub trait Collector {
    /// Runs one measurement pass, returning zero or more samples, or a
    /// failure that the scheduler contains.
    fn collect(&self) -> (r: Result<Vec<Message>, Error>)
        ensures
            r matches Ok(msgs) ==> forall|i: int|
                0 <= i < msgs@.len() ==> ready_for_sink(#[trigger] msgs@[i]),
    ;
}

/// A deterministic probe with a fixed outcome: the stub that stands in for
/// a real measurement in tests and demonstrations.
pub struct FixedCollector {
    outcome: Result<Vec<Message>, Error>,
}

impl FixedCollector {
    /// Whether this probe is configured to fail.
    pub closed spec fn fails(&self) -> bool {
        self.outcome is Err
    }

    /// The messages a successful pass returns.
    pub closed spec fn messages_spec(&self) -> Seq<Message> {
        match self.outcome {
            Ok(ref v) => v@,
            Err(_) => Seq::empty(),
        }
    }

    /// Every configured message is fit for a sink.
    pub closed spec fn wf(&self) -> bool {
        match self.outcome {
            Ok(ref v) => forall|i: int| 0 <= i < v@.len() ==> ready_for_sink(#[trigger] v@[i]),
            Err(_) => true,
        }
    }

    /// A probe that always returns the given messages.
    pub fn succeeding(messages: Vec<Message>) -> (r: FixedCollector)
        requires
            forall|i: int| 0 <= i < messages@.len() ==> ready_for_sink(#[trigger] messages@[i]),
        ensures
            !r.fails(),
            r.wf(),
            r.messages_spec() == messages@,
    {
        FixedCollector { outcome: Ok(messages) }
    }

    /// A probe that always fails with the given error.
    pub fn failing(error: Error) -> (r: FixedCollector)
        ensures
            r.fails(),
            r.wf(),
    {
        FixedCollector { outcome: Err(error) }
    }
}

impl Collector for FixedCollector {
    fn collect(&self) -> (r: Result<Vec<Message>, Error>)
        ensures
            r is Ok <==> !self.fails(),
            self.wf() ==> (r matches Ok(msgs) ==> msgs@.len() == self.messages_spec().len() && (
            forall|i: int|
                0 <= i < msgs@.len() ==> same_sample(
                    #[trigger] msgs@[i],
                    self.messages_spec()[i],
                ))),
    {
        match &self.outcome {
            Ok(v) => {
                let mut copy: Vec<Message> = Vec::new();
                let mut i: usize = 0;
                while i < v.len()
                    invariant
                        i <= v@.len(),
                        v@ == self.messages_spec(),
                        self.outcome matches Ok(ref w) && w@ == v@,
                        self.wf() ==> copy@.len() == i,
                        self.wf() ==> (forall|k: int|
                            0 <= k < copy@.len() ==> same_sample(#[trigger] copy@[k], v@[k])),
                        copy@.len() <= i,
                        forall|k: int|
                            0 <= k < copy@.len() ==> ready_for_sink(#[trigger] copy@[k]),
                    decreases v@.len() - i,
                {
                    let m = v[i].clone();
                    if m.ready() {
                        copy.push(m);
                    }
                    i = i + 1;
                }
                Ok(copy)
            },
            Err(e) => Err(e.clone()),
        }
    }
}

/// What one collection cycle reports back to the run loop.
pub struct CycleReport {
    /// How many probes the cycle invoked.
    pub probes_run: usize,
    /// How many messages were handed to the channel.
    pub sent: usize,
    /// Whether the consumer side was found disconnected.
    pub disconnected: bool,
}

/// Sequences probes on a fixed cadence and forwards their samples.
pub struct CollectorScheduler<C> {
    collectors: Vec<C>,
    interval_secs: u64,
}

impl<C> CollectorScheduler<C> {
    /// The registered probes, in registration order.
    pub closed spec fn collectors_seq(&self) -> Seq<C> {
        self.collectors@
    }

    /// The pause between cycles, in seconds.
    pub closed spec fn interval_spec(&self) -> u64 {
        self.interval_secs
    }

    /// An empty scheduler with the given cycle interval, in seconds.
    pub fn new(interval: u64) -> (r: Self)
        ensures
            r.collectors_seq() == Seq::<C>::empty(),
            r.interval_spec() == interval,
    {
        CollectorScheduler { collectors: Vec::new(), interval_secs: interval }
    }

    /// Appends a probe; registration order is fixed for the run.
    pub fn register(&mut self, collector: C)
        ensures
            final(self).collectors_seq() == old(self).collectors_seq().push(collector),
            final(self).interval_spec() == old(self).interval_spec(),
    {
        self.collectors.push(collector);
    }

    /// How many probes are registered.
    pub fn probe_count(&self) -> (r: usize)
        ensures
            r == self.collectors_seq().len(),
    {
        self.collectors.len()
    }

    /// The pause between cycles, in seconds.
    pub fn interval_secs(&self) -> (r: u64)
        ensures
            r == self.interval_spec(),
    {
        self.interval_secs
    }

    /// Surrenders the registered probes, consuming the scheduler: how the
    /// embedding process pairs each descriptor with its I/O.
    pub fn into_collectors(self) -> (r: Vec<C>)
        ensures
            r@ == self.collectors_seq(),
    {
        self.collectors
    }
}

/// Hands one tagged sample to the channel. Every message the verified
/// producer path forwards is well formed, carries at least one metric, and
/// bears the host identity in its `hostname` tag.
fn forward(
    sender: &crossbeam_channel::Sender<Message>,
    message: Message,
    hostname: &str,
) -> (r: Result<(), Message>)
    requires
        ready_for_sink(message),
        message.tag_map().contains_pair("hostname"@, hostname@),
    ensures
        r matches Err(m) ==> m == message,
{
    send_message(sender, message)
}

impl<C: Collector> CollectorScheduler<C> {
    /// Invokes every probe once, in registration order. A probe's failure
    /// is contained: unless the consumer disconnects, all probes run.
    pub fn run_cycle(&self, sender: &crossbeam_channel::Sender<Message>, hostname: &str) -> (r:
        CycleReport)
        ensures
            r.probes_run <= self.collectors_seq().len(),
            !r.disconnected ==> r.probes_run == self.collectors_seq().len(),
            self.collectors_seq().len() == 0 ==> r.sent == 0 && !r.disconnected,
    {
        let n = self.collectors.len();
        let mut sent: usize = 0;
        let mut i: usize = 0;
        while i < n
            invariant
                i <= n,
                n == self.collectors@.len(),
                n == 0 ==> sent == 0,
            decreases n - i,
        {
            match self.collectors[i].collect() {
                Ok(mut messages) => {
                    while messages.len() > 0
                        invariant
                            i < n,
                            n == self.collectors@.len(),
                            forall|k: int|
                                0 <= k < messages@.len() ==> ready_for_sink(
                                    #[trigger] messages@[k],
                                ),
                        decreases messages@.len(),
                    {
                        let mut message = messages.remove(0);
                        message.insert_tag("hostname", hostname);
                        proof {
                            assert(message.tag_map().contains_pair("hostname"@, hostname@));
                        }
                        match forward(sender, message, hostname) {
                            Ok(_) => {
                                if sent < usize::MAX {
                                    sent = sent + 1;
                                }
                            },
                            Err(_) => {
                                return CycleReport {
                                    probes_run: i + 1,
                                    sent,
                                    disconnected: true,
                                };
                            },
                        }
                    }
                },
                Err(_e) => {
                    // the failure is contained: it would be logged by the
                    // embedding process, and the cycle moves on
                },
            }
            i = i + 1;
        }
        CycleReport { probes_run: i, sent, disconnected: false }
    }

    /// One beat of the producer run loop: a full cycle, followed by the
    /// configured pause unless the consumer side has disconnected. The
    /// returned report's `disconnected` field says whether the loop is
    /// over: send failure is the producer's one termination condition, and
    /// an empty probe list never reports one. The loop itself runs in the
    /// embedding process, which owns the thread.
    pub fn run_step(&self, sender: &crossbeam_channel::Sender<Message>, hostname: &str) -> (r:
        CycleReport)
        requires
            self.interval_spec() <= 86400,
        ensures
            r.probes_run <= self.collectors_seq().len(),
            !r.disconnected ==> r.probes_run == self.collectors_seq().len(),
            self.collectors_seq().len() == 0 ==> r.sent == 0 && !r.disconnected,
    {
        let report = self.run_cycle(sender, hostname);
        if !report.disconnected {
            sleep_ms(self.interval_secs * 1000);
        }
        report
    }
}

} // verus!

use crate::config::CollectorsConfig;
use crate::config::UptionConfig;
use crate::url::Ipv4Address;

verus! {

/// The closed registry of probe descriptors a configuration can enable.
/// The embedding process pairs each descriptor with the I/O that drives
/// it.
pub enum CollectorKind {
    Ping(ping::Ping),
    Http(http::HTTP),
    Dns(dns::Dns),
    Wireless(wireless::Wireless),
}

/// How many probes the ping section registers: one per host, where
/// enabled.
pub open spec fn spec_ping_count(c: &CollectorsConfig) -> int {
    if c.ping.enabled {
        c.ping.hosts@.len() as int
    } else {
        0
    }
}

/// How many probes the HTTP section registers: one per URL, where enabled.
pub open spec fn spec_http_count(c: &CollectorsConfig) -> int {
    if c.http.enabled {
        c.http.urls@.len() as int
    } else {
        0
    }
}

/// How many probes the DNS section registers: one per server and host
/// pair, where enabled.
pub open spec fn spec_dns_count(c: &CollectorsConfig) -> int {
    if c.dns.enabled {
        c.dns.dns_servers@.len() as int * c.dns.hosts@.len() as int
    } else {
        0
    }
}

/// How many probes a configuration registers in all, the wireless probe
/// included where enabled.
pub open spec fn spec_probe_count(c: &CollectorsConfig) -> int {
    spec_ping_count(c) + spec_http_count(c) + spec_dns_count(c) + (if c.wireless.enabled {
        1int
    } else {
        0
    })
}

/// Entry `k` of the ping segment probes the `k`-th configured host.
pub open spec fn ping_entry_ok(c: &CollectorsConfig, e: CollectorKind, k: int) -> bool {
    e matches CollectorKind::Ping(p) && p.host_view() == c.ping.hosts@[k].text_view()
        && p.timeout_spec() == c.ping.timeout.0
}

/// Entry `k` of the HTTP segment probes the `k`-th configured URL.
pub open spec fn http_entry_ok(c: &CollectorsConfig, e: CollectorKind, k: int) -> bool {
    e matches CollectorKind::Http(h) && h.url_view() == c.http.urls@[k].text_view()
        && h.timeout_spec() == c.http.timeout.0
}

/// Entry `k` of the server-major DNS segment pairs server `k / hosts` with
/// host `k % hosts`.
pub open spec fn dns_entry_ok(c: &CollectorsConfig, e: CollectorKind, k: int) -> bool {
    let l = c.dns.hosts@.len() as int;
    e matches CollectorKind::Dns(d) && d.server_spec() == c.dns.dns_servers@[k / l]
        && d.host_view() == c.dns.hosts@[k % l].text_view() && d.timeout_spec()
        == c.dns.timeout.0
}

impl CollectorScheduler<CollectorKind> {
    /// Builds the collection stage from a configuration snapshot: probes
    /// registered in the order ping, HTTP, DNS (server-major), wireless,
    /// one probe per configured target.
    pub fn from_config(config: &UptionConfig) -> (r: Self)
        ensures
            r.interval_spec() == config.collectors.interval,
            r.collectors_seq().len() == spec_probe_count(&config.collectors),
            forall|k: int|
                0 <= k < spec_ping_count(&config.collectors) ==> ping_entry_ok(
                    &config.collectors,
                    #[trigger] r.collectors_seq()[k],
                    k,
                ),
            forall|k: int|
                spec_ping_count(&config.collectors) <= k < spec_ping_count(&config.collectors)
                    + spec_http_count(&config.collectors) ==> http_entry_ok(
                    &config.collectors,
                    #[trigger] r.collectors_seq()[k],
                    k - spec_ping_count(&config.collectors),
                ),
            forall|k: int|
                spec_ping_count(&config.collectors) + spec_http_count(&config.collectors) <= k
                    < spec_ping_count(&config.collectors) + spec_http_count(&config.collectors)
                    + spec_dns_count(&config.collectors) ==> dns_entry_ok(
                    &config.collectors,
                    #[trigger] r.collectors_seq()[k],
                    k - spec_ping_count(&config.collectors) - spec_http_count(
                        &config.collectors,
                    ),
                ),
            config.collectors.wireless.enabled ==> r.collectors_seq().last() matches
                CollectorKind::Wireless(_),
    {
        let mut scheduler = CollectorScheduler::<CollectorKind>::new(config.collectors.interval);
        let c = &config.collectors;

        if c.ping.enabled {
            let mut i: usize = 0;
            while i < c.ping.hosts.len()
                invariant
                    i <= c.ping.hosts@.len(),
                    c.ping.enabled,
                    scheduler.collectors_seq().len() == i,
                    scheduler.interval_spec() == config.collectors.interval,
                    forall|k: int|
                        0 <= k < i ==> ping_entry_ok(
                            c,
                            #[trigger] scheduler.collectors_seq()[k],
                            k,
                        ),
                decreases c.ping.hosts@.len() - i,
            {
                scheduler.register(
                    CollectorKind::Ping(ping::Ping::new(c.ping.hosts[i].clone(), c.ping.timeout)),
                );
                i = i + 1;
            }
        }
        let ghost after_ping = scheduler.collectors_seq().len() as int;
        proof {
            assert(after_ping == spec_ping_count(c));
        }

        if c.http.enabled {
            let mut i: usize = 0;
            while i < c.http.urls.len()
                invariant
                    i <= c.http.urls@.len(),
                    c.http.enabled,
                    after_ping == spec_ping_count(c),
                    scheduler.collectors_seq().len() == after_ping + i,
                    scheduler.interval_spec() == config.collectors.interval,
                    forall|k: int|
                        0 <= k < after_ping ==> ping_entry_ok(
                            c,
                            #[trigger] scheduler.collectors_seq()[k],
                            k,
                        ),
                    forall|k: int|
                        after_ping <= k < after_ping + i ==> http_entry_ok(
                            c,
                            #[trigger] scheduler.collectors_seq()[k],
                            k - after_ping,
                        ),
                decreases c.http.urls@.len() - i,
            {
                scheduler.register(
                    CollectorKind::Http(http::HTTP::new(c.http.urls[i].clone(), c.http.timeout)),
                );
                i = i + 1;
            }
        }
        let ghost after_http = scheduler.collectors_seq().len() as int;
        proof {
            assert(after_http == spec_ping_count(c) + spec_http_count(c));
        }

        if c.dns.enabled {
            let mut si: usize = 0;
            while si < c.dns.dns_servers.len()
                invariant
                    si <= c.dns.dns_servers@.len(),
                    c.dns.enabled,
                    after_ping == spec_ping_count(c),
                    after_http == spec_ping_count(c) + spec_http_count(c),
                    scheduler.collectors_seq().len() == after_http + si * c.dns.hosts@.len(),
                    scheduler.interval_spec() == config.collectors.interval,
                    forall|k: int|
                        0 <= k < after_ping ==> ping_entry_ok(
                            c,
                            #[trigger] scheduler.collectors_seq()[k],
                            k,
                        ),
                    forall|k: int|
                        after_ping <= k < after_http ==> http_entry_ok(
                            c,
                            #[trigger] scheduler.collectors_seq()[k],
                            k - after_ping,
                        ),
                    forall|k: int|
                        after_http <= k < scheduler.collectors_seq().len() ==> dns_entry_ok(
                            c,
                            #[trigger] scheduler.collectors_seq()[k],
                            k - after_http,
                        ),
                decreases c.dns.dns_servers@.len() - si,
            {
                let mut hi: usize = 0;
                while hi < c.dns.hosts.len()
                    invariant
                        si < c.dns.dns_servers@.len(),
                        hi <= c.dns.hosts@.len(),
                        c.dns.enabled,
                        after_ping == spec_ping_count(c),
                        after_http == spec_ping_count(c) + spec_http_count(c),
                        scheduler.collectors_seq().len() == after_http + si * c.dns.hosts@.len()
                            + hi,
                        scheduler.interval_spec() == config.collectors.interval,
                        forall|k: int|
                            0 <= k < after_ping ==> ping_entry_ok(
                                c,
                                #[trigger] scheduler.collectors_seq()[k],
                                k,
                            ),
                        forall|k: int|
                            after_ping <= k < after_http ==> http_entry_ok(
                                c,
                                #[trigger] scheduler.collectors_seq()[k],
                                k - after_ping,
                            ),
                        forall|k: int|
                            after_http <= k < scheduler.collectors_seq().len() ==> dns_entry_ok(
                                c,
                                #[trigger] scheduler.collectors_seq()[k],
                                k - after_http,
                            ),
                    decreases c.dns.hosts@.len() - hi,
                {
                    scheduler.register(
                        CollectorKind::Dns(
                            dns::Dns::new(
                                c.dns.dns_servers[si],
                                c.dns.hosts[hi].clone(),
                                c.dns.timeout,
                            ),
                        ),
                    );
                    proof {
                        let l = c.dns.hosts@.len() as int;
                        vstd::arithmetic::div_mod::lemma_fundamental_div_mod_converse(
                            si as int * l + hi as int,
                            l,
                            si as int,
                            hi as int,
                        );
                    }
                    hi = hi + 1;
                }
                proof {
                    assert((si + 1) * c.dns.hosts@.len() == si * c.dns.hosts@.len()
                        + c.dns.hosts@.len()) by (nonlinear_arith);
                }
                si = si + 1;
            }
            proof {
                assert(scheduler.collectors_seq().len() == after_http + spec_dns_count(c));
            }
        }

        if c.wireless.enabled {
            scheduler.register(CollectorKind::Wireless(wireless::Wireless::new()));
        }
        scheduler
    }
}

} // verus!
