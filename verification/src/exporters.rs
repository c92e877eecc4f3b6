//! The export stage: a scheduler that consumes messages from the hand-off
//! channel, attempts delivery through the configured sink, and on failure
//! holds the message in a one-slot retry buffer while backing off with a
//! capped, jittered exponential delay.
pub mod file;
pub mod influxdb;
pub mod influxdb_v1;
pub mod influxdb_v2;
pub mod logger;
pub mod stdout;

use std::io::Write;

use vstd::prelude::*;
use vstd::arithmetic::div_mod::lemma_div_denominator;
use vstd::arithmetic::div_mod::lemma_div_is_ordered;
use vstd::arithmetic::div_mod::lemma_div_multiples_vanish;
use vstd::arithmetic::power::pow;
use vstd::arithmetic::power::lemma_pow_distributes;
use vstd::arithmetic::power::lemma_pow_increases;
use vstd::arithmetic::power::lemma_pow_multiplies;
use vstd::arithmetic::power::lemma_pow_positive;
use vstd::arithmetic::power2::lemma2_to64;
use vstd::arithmetic::power2::lemma_pow2;

use crate::channel::recv_message;
use crate::channel::sleep_ms;
use crate::error::Error;
use crate::message::ready_for_sink;
use crate::message::Message;

verus! {

/// A pluggable sink: durably transmits one message, or fails. Every message
/// handed to a sink is well formed and carries at least one metric.
pub trait Exporter {
    /// Attempts to deliver one message downstream.
    fn export(&self, message: &Message) -> (r: Result<(), Error>)
        requires
            ready_for_sink(*message),
    ;
}

/// The largest cap the backoff arithmetic supports, in milliseconds
/// (about eleven and a half days — far past any sensible configuration).
pub const BACKOFF_CAP_LIMIT_MS: u64 = 1000000000;

/// The un-jittered backoff before retry attempt `n`, in whole
/// milliseconds: 200·(1.5ⁿ − 1), that is 200·(3ⁿ − 2ⁿ)/2ⁿ, rounded down
/// once to whole milliseconds.
pub open spec fn spec_backoff_raw(n: nat) -> int {
    200 * (pow(3, n) - pow(2, n)) / pow(2, n)
}

/// The backoff actually waited before retry attempt `n`: the raw delay,
/// capped.
pub open spec fn spec_backoff(n: nat, cap: nat) -> int {
    if spec_backoff_raw(n) <= cap {
        spec_backoff_raw(n)
    } else {
        cap as int
    }
}

/// 3ⁿ dominates 2ⁿ, and both powers are positive.
proof fn lemma_pow3_ge_pow2(n: nat)
    ensures
        pow(3, n) >= pow(2, n) >= 1,
    decreases n,
{
    reveal(pow);
    lemma_pow_positive(2, n);
    if n > 0 {
        lemma_pow3_ge_pow2((n - 1) as nat);
    }
}

/// From the second failure on, 3ⁿ is at least twice 2ⁿ: the numerator
/// 3ⁿ − 2ⁿ is at least half of 3ⁿ.
proof fn lemma_pow3_dominates_twice(n: nat)
    requires
        n >= 2,
    ensures
        pow(3, n) >= 2 * pow(2, n),
    decreases n,
{
    reveal(pow);
    if n == 2 {
        assert(pow(3, 0) == 1 && pow(2, 0) == 1);
        assert(pow(3, 1) == 3 && pow(2, 1) == 2);
        assert(pow(3, 2) == 9 && pow(2, 2) == 4);
    } else {
        lemma_pow3_dominates_twice((n - 1) as nat);
        lemma_pow3_ge_pow2((n - 1) as nat);
    }
}

/// A larger base gives a larger power.
proof fn lemma_pow_base_mono(a: int, b: int, e: nat)
    requires
        a >= b >= 0,
    ensures
        pow(a, e) >= pow(b, e) >= 0,
    decreases e,
{
    reveal(pow);
    if e > 0 {
        lemma_pow_base_mono(a, b, (e - 1) as nat);
        let pa = pow(a, (e - 1) as nat);
        let pb = pow(b, (e - 1) as nat);
        assert(a * pa >= b * pb >= 0) by (nonlinear_arith)
            requires
                a >= b >= 0,
                pa >= pb >= 0,
        ;
    }
}

/// The first two raw backoff values: no delay before any failure, and
/// 100 ms after one.
proof fn lemma_backoff_raw_values()
    ensures
        spec_backoff_raw(0) == 0,
        spec_backoff_raw(1) == 100,
{
    reveal(pow);
    assert(pow(3, 0) == 1 && pow(2, 0) == 1);
    assert(pow(3, 1) == 3 && pow(2, 1) == 2);
    assert(200 * (1 - 1) as int / 1 == 0);
    assert(200 * (3 - 2) as int / 2 == 100);
}

/// The raw backoff is non-negative.
pub proof fn lemma_backoff_raw_nonneg(n: nat)
    ensures
        0 <= spec_backoff_raw(n),
{
    lemma_pow3_ge_pow2(n);
    lemma_div_is_ordered(0, 200 * (pow(3, n) - pow(2, n)), pow(2, n));
}

/// One more failure never shortens the raw backoff.
proof fn lemma_backoff_raw_monotone_step(n: nat)
    ensures
        spec_backoff_raw(n) <= spec_backoff_raw(n + 1),
{
    reveal(pow);
    let p3 = pow(3, n);
    let p2 = pow(2, n);
    lemma_pow3_ge_pow2(n);
    assert(pow(3, n + 1) == 3 * p3);
    assert(pow(2, n + 1) == 2 * p2);
    let x = 200 * (p3 - p2);
    // doubling numerator and denominator leaves the quotient unchanged
    lemma_div_multiples_vanish(x, 2);
    lemma_div_denominator(2 * x, 2, p2);
    assert((2 * x) / (2 * p2) == x / p2);
    // and the doubled numerator is at most the next step's numerator
    lemma_div_is_ordered(2 * x, 200 * (3 * p3 - 2 * p2), 2 * p2);
}

/// The raw backoff is monotone in the failure count.
pub proof fn lemma_backoff_raw_monotone(a: nat, b: nat)
    requires
        a <= b,
    ensures
        spec_backoff_raw(a) <= spec_backoff_raw(b),
    decreases b - a,
{
    if a < b {
        lemma_backoff_raw_monotone(a, (b - 1) as nat);
        lemma_backoff_raw_monotone_step((b - 1) as nat);
    }
}

/// A raw backoff within the cap limit bounds the failure count: by the
/// 52nd failure the un-jittered delay exceeds every admissible cap.
proof fn lemma_backoff_count_bound(n: nat, cap: nat)
    requires
        cap <= BACKOFF_CAP_LIMIT_MS,
        spec_backoff_raw(n) <= cap,
    ensures
        n <= 51,
{
    reveal(pow);
    if n >= 52 {
        lemma_backoff_raw_monotone(52, n);
        let p3 = pow(3, 52);
        let p2 = pow(2, 52);
        let x = 200 * (p3 - p2);
        lemma_pow3_ge_pow2(52);
        // the quotient bound turns into a product bound on the numerator
        if x >= p2 * 1000000001 {
            lemma_div_is_ordered(p2 * 1000000001, x, p2);
            lemma_div_multiples_vanish(1000000001, p2);
            assert(x / p2 >= 1000000001);
        }
        assert(x < p2 * 1000000001);
        // half the 200·3⁵² term already exceeds that bound
        lemma_pow3_dominates_twice(52);
        assert(x >= 100 * p3);
        // 3⁵² = 9²⁶ ≥ 8²⁶ = 2²⁶·4²⁶, while 2⁵² = 4²⁶
        lemma_pow_multiplies(3, 2, 26);
        assert(pow(3, 0) == 1 && pow(2, 0) == 1);
        assert(pow(3, 1) == 3 && pow(2, 1) == 2);
        assert(pow(3, 2) == 9 && pow(2, 2) == 4);
        assert(pow(9, 26) == p3);
        lemma_pow_base_mono(9, 8, 26);
        lemma_pow_distributes(2, 4, 26);
        assert(pow(8, 26) == pow(2, 26) * pow(4, 26));
        lemma_pow_multiplies(2, 2, 26);
        assert(pow(4, 26) == p2);
        assert(100 * (pow(2, 26) * pow(4, 26)) <= 100 * p3) by (nonlinear_arith)
            requires
                pow(2, 26) * pow(4, 26) <= p3,
        ;
        assert(100 * (pow(2, 26) * pow(4, 26)) < p2 * 1000000001);
        lemma_pow_positive(4, 26);
        assert(100 * pow(2, 26) < 1000000001) by (nonlinear_arith)
            requires
                100 * (pow(2, 26) * pow(4, 26)) < pow(4, 26) * 1000000001,
                pow(4, 26) > 0,
        ;
        lemma_pow2(26);
        lemma2_to64();
        assert(vstd::arithmetic::power2::pow2(26) == 0x4000000);
        assert(false);
    }
}

/// Backoff monotonicity and cap: the waited delay never shrinks as the
/// failure count grows, never exceeds the cap, and after a single failure
/// is 100 ms (under any cap of at least 100 ms).
pub proof fn lemma_backoff_monotone_and_capped(n: nat, cap: nat)
    ensures
        spec_backoff(n, cap) <= spec_backoff(n + 1, cap),
        spec_backoff(n, cap) <= cap,
        cap >= 100 ==> spec_backoff(1, cap) == 100,
{
    lemma_backoff_raw_monotone_step(n);
    lemma_backoff_raw_values();
}

/// The one-slot retry buffer with its error counter.
pub struct RetryItem {
    message: Option<Message>,
    error_count: u64,
    max_backoff_ms: u64,
}

impl RetryItem {
    /// The buffered message, if an export failed and awaits redelivery.
    pub closed spec fn pending(&self) -> Option<Message> {
        self.message
    }

    /// The consecutive-failure counter that drives the backoff.
    pub closed spec fn error_count_spec(&self) -> u64 {
        self.error_count
    }

    /// The hard cap on the backoff delay, in milliseconds.
    pub closed spec fn cap_spec(&self) -> u64 {
        self.max_backoff_ms
    }

    /// A buffered message is always fit for the sink, and the cap small
    /// enough for the backoff arithmetic.
    pub closed spec fn wf(&self) -> bool {
        &&& (self.message matches Some(m) ==> ready_for_sink(m))
        &&& self.max_backoff_ms <= BACKOFF_CAP_LIMIT_MS
    }

    /// An empty buffer with the given backoff cap.
    pub fn new(max_backoff_ms: u64) -> (r: RetryItem)
        requires
            max_backoff_ms <= BACKOFF_CAP_LIMIT_MS,
        ensures
            r.wf(),
            r.pending() is None,
            r.error_count_spec() == 0,
            r.cap_spec() == max_backoff_ms,
    {
        RetryItem { message: None, error_count: 0, max_backoff_ms }
    }

    /// Removes and returns the buffered message, if any.
    pub fn take(&mut self) -> (r: Option<Message>)
        requires
            old(self).wf(),
        ensures
            final(self).wf(),
            r == old(self).pending(),
            final(self).pending() is None,
            final(self).error_count_spec() == old(self).error_count_spec(),
            final(self).cap_spec() == old(self).cap_spec(),
            r matches Some(m) ==> ready_for_sink(m),
    {
        self.message.take()
    }

    /// Buffers a message for redelivery.
    pub fn set(&mut self, message: Message)
        requires
            old(self).wf(),
            ready_for_sink(message),
        ensures
            final(self).wf(),
            final(self).pending() == Some(message),
            final(self).error_count_spec() == old(self).error_count_spec(),
            final(self).cap_spec() == old(self).cap_spec(),
    {
        self.message = Some(message);
    }

    /// Counts one more consecutive failure, unless the un-jittered backoff
    /// that the next count would produce has already saturated at the cap.
    pub fn increment_error_count(&mut self)
        requires
            old(self).wf(),
        ensures
            final(self).wf(),
            final(self).pending() == old(self).pending(),
            final(self).cap_spec() == old(self).cap_spec(),
            final(self).error_count_spec() == if spec_backoff_raw(
                old(self).error_count_spec() as nat + 1,
            ) < old(self).cap_spec() as int {
                old(self).error_count_spec() + 1
            } else {
                old(self).error_count_spec() as int
            },
    {
        let next = backoff_raw_capped(self.error_count, 1, self.max_backoff_ms);
        if next < self.max_backoff_ms {
            proof {
                lemma_backoff_count_bound(self.error_count as nat + 1, self.max_backoff_ms as nat);
            }
            self.error_count = self.error_count + 1;
        }
    }

    /// Counts one successful export: the streak backs off gradually, never
    /// resetting to zero at once and never going below zero.
    pub fn decrement_error_count(&mut self)
        requires
            old(self).wf(),
        ensures
            final(self).wf(),
            final(self).pending() == old(self).pending(),
            final(self).cap_spec() == old(self).cap_spec(),
            final(self).error_count_spec() == if old(self).error_count_spec() > 0 {
                old(self).error_count_spec() - 1
            } else {
                0
            },
    {
        if self.error_count > 0 {
            self.error_count = self.error_count - 1;
        }
    }

    /// The consecutive-failure counter's current value.
    pub fn error_count(&self) -> (r: u64)
        ensures
            r == self.error_count_spec(),
    {
        self.error_count
    }

    /// Whether a message sits in the buffer awaiting redelivery.
    pub fn has_pending(&self) -> (r: bool)
        ensures
            r == (self.pending() is Some),
    {
        self.message.is_some()
    }

    /// The capped, un-jittered backoff for the current failure count.
    pub fn backoff_duration_ms(&self) -> (r: u64)
        requires
            self.wf(),
        ensures
            r == spec_backoff(self.error_count_spec() as nat, self.cap_spec() as nat),
            r <= self.cap_spec(),
    {
        backoff_raw_capped(self.error_count, 0, self.max_backoff_ms)
    }
}

/// An upper bound on the powers of three the capped computation can
/// reach: up to the 52nd, each fits comfortably in two steps of 2¹⁰⁴.
proof fn lemma_pow3_upper(k: nat)
    requires
        k <= 52,
    ensures
        0 < pow(3, k) <= pow(2, 104),
        0 < pow(2, k) <= pow(2, 104),
{
    reveal(pow);
    lemma_pow_positive(3, k);
    lemma_pow_positive(2, k);
    lemma_pow_increases(3, k, 52);
    lemma_pow_multiplies(3, 2, 26);
    assert(pow(3, 0) == 1 && pow(2, 0) == 1);
    assert(pow(3, 1) == 3 && pow(2, 1) == 2);
    assert(pow(3, 2) == 9 && pow(2, 2) == 4);
    assert(pow(2, 3) == 8);
    assert(pow(2, 4) == 16);
    lemma_pow_base_mono(16, 9, 26);
    lemma_pow_multiplies(2, 4, 26);
    assert(pow(3, 52) <= pow(2, 104));
    lemma_pow3_ge_pow2(k);
    lemma_pow_increases(2, k, 52);
    lemma_pow_increases(2, 52, 104);
}

/// The concrete value of 2¹⁰⁴, for the overflow bounds.
proof fn lemma_pow2_104_value()
    ensures
        pow(2, 104) == 0x100000000000000000000000000,
{
    vstd::arithmetic::power2::lemma_pow2_adds(64, 32);
    vstd::arithmetic::power2::lemma_pow2_adds(96, 8);
    lemma2_to64();
    vstd::arithmetic::power2::lemma2_to64_rest();
    lemma_pow2(104);
}

/// Computes `min(spec_backoff_raw(n + extra), cap)` by raising the powers
/// step by step, stopping early once the delay saturates at the cap.
fn backoff_raw_capped(n: u64, extra: u64, cap: u64) -> (r: u64)
    requires
        cap <= BACKOFF_CAP_LIMIT_MS,
        extra <= 1,
    ensures
        r == spec_backoff(n as nat + extra as nat, cap as nat),
        r <= cap,
{
    let ghost total = n as nat + extra as nat;
    let mut p3: u128 = 1;
    let mut p2: u128 = 1;
    let mut b: u64 = 0;
    let mut k: u64 = 0;
    proof {
        reveal(pow);
        lemma_backoff_raw_values();
    }
    while k < n || (extra == 1 && k == n)
        invariant
            cap <= BACKOFF_CAP_LIMIT_MS,
            extra <= 1,
            total == n as nat + extra as nat,
            k <= total,
            p3 == pow(3, k as nat),
            p2 == pow(2, k as nat),
            b == spec_backoff_raw(k as nat),
            b <= cap,
        decreases total - k,
    {
        proof {
            reveal(pow);
            lemma_backoff_count_bound(k as nat, cap as nat);
            lemma_pow3_upper(k as nat + 1);
            lemma_pow2_104_value();
            lemma_pow3_ge_pow2(k as nat + 1);
        }
        let np3: u128 = p3 * 3;
        let np2: u128 = p2 * 2;
        let num: u128 = 200 * (np3 - np2);
        let nraw: u128 = num / np2;
        proof {
            assert(np3 == pow(3, k as nat + 1));
            assert(np2 == pow(2, k as nat + 1));
            assert(nraw == spec_backoff_raw(k as nat + 1));
        }
        if nraw >= cap as u128 {
            proof {
                lemma_backoff_raw_monotone(k as nat + 1, total);
            }
            return cap;
        }
        b = nraw as u64;
        p3 = np3;
        p2 = np2;
        k = k + 1;
    }
    b
}

/// Relies on std::io::stdout: writes the line, followed by a line break,
/// on standard output.
#[verifier::external_body]
pub(crate) fn print_line(line: &String) {
    let _ = writeln!(std::io::stdout(), "{}", line);
}

/// Relies on std::io::stderr: emits the line, followed by a line break, on
/// standard error, where the embedding process's logging collects it.
#[verifier::external_body]
pub(crate) fn log_line(line: &String) {
    let _ = writeln!(std::io::stderr(), "{}", line);
}

/// Relies on rand::random_range for the retry jitter: the drawn value lies
/// in the requested range; nothing else is assumed of it.
#[verifier::external_body]
fn jitter_permille() -> (r: u64)
    ensures
        r <= 200,
{
    rand::random_range(0..=200u64)
}

/// What became of one message the export step handled.
pub enum ExportOutcome {
    /// The sink accepted the message (or dropped it as permanently
    /// rejected, which the sink reports as acceptance).
    Delivered,
    /// The sink failed; the message sits in the retry buffer.
    Buffered,
}

/// Consumes messages and hands each to exactly one sink, smoothing over
/// transient sink failures with the one-slot retry buffer.
pub struct ExporterScheduler<E> {
    exporter: E,
    retry_buffer: RetryItem,
}

impl<E> ExporterScheduler<E> {
    /// The buffered message awaiting redelivery, if any.
    pub closed spec fn pending(&self) -> Option<Message> {
        self.retry_buffer.pending()
    }

    /// The consecutive-failure counter.
    pub closed spec fn error_count_spec(&self) -> u64 {
        self.retry_buffer.error_count_spec()
    }

    /// The backoff cap, in milliseconds.
    pub closed spec fn cap_spec(&self) -> u64 {
        self.retry_buffer.cap_spec()
    }

    /// The configured sink.
    pub closed spec fn exporter_spec(&self) -> E {
        self.exporter
    }

    /// The scheduler's invariant: its retry buffer is well formed.
    pub closed spec fn wf(&self) -> bool {
        self.retry_buffer.wf()
    }

    /// A scheduler around the given sink, with an empty retry buffer and
    /// the 120 s backoff cap.
    pub fn new(exporter: E) -> (r: Self)
        ensures
            r.wf(),
            r.pending() is None,
            r.error_count_spec() == 0,
            r.cap_spec() == 120000,
            r.exporter_spec() == exporter,
    {
        ExporterScheduler { exporter, retry_buffer: RetryItem::new(120000) }
    }

    /// The consecutive-failure counter's current value.
    pub fn error_count(&self) -> (r: u64)
        ensures
            r == self.error_count_spec(),
    {
        self.retry_buffer.error_count()
    }

    /// Whether a message sits in the retry buffer awaiting redelivery.
    pub fn has_pending(&self) -> (r: bool)
        ensures
            r == (self.pending() is Some),
    {
        self.retry_buffer.has_pending()
    }

    /// Surrenders the sink, consuming the scheduler.
    pub fn into_exporter(self) -> (r: E)
        ensures
            r == self.exporter_spec(),
    {
        self.exporter
    }
}

impl<E: Exporter> ExporterScheduler<E> {
    /// The receive discipline: the buffered message, if any, comes first;
    /// only with an empty buffer is a new message taken from the channel.
    /// Nothing is returned only once the channel is empty and disconnected.
    fn receive(&mut self, receiver: &crossbeam_channel::Receiver<Message>) -> (r: Option<Message>)
        requires
            old(self).wf(),
        ensures
            final(self).wf(),
            final(self).pending() is None,
            final(self).error_count_spec() == old(self).error_count_spec(),
            final(self).cap_spec() == old(self).cap_spec(),
            final(self).exporter_spec() == old(self).exporter_spec(),
            old(self).pending() matches Some(m) ==> r == Some(m),
            r is None ==> old(self).pending() is None,
    {
        match self.retry_buffer.take() {
            Some(message) => Some(message),
            None => recv_message(receiver),
        }
    }

    /// Attempts one export: on success the failure streak shrinks by one;
    /// on failure the message is buffered for redelivery and the streak
    /// grows, unless the backoff has saturated at the cap.
    fn export(&mut self, message: Message) -> (o: ExportOutcome)
        requires
            old(self).wf(),
            ready_for_sink(message),
            old(self).pending() is None,
        ensures
            final(self).wf(),
            final(self).cap_spec() == old(self).cap_spec(),
            final(self).exporter_spec() == old(self).exporter_spec(),
            o == ExportOutcome::Delivered ==> final(self).pending() is None
                && final(self).error_count_spec() == if old(self).error_count_spec() > 0 {
                old(self).error_count_spec() - 1
            } else {
                0
            },
            o == ExportOutcome::Buffered ==> final(self).pending() == Some(message)
                && final(self).error_count_spec() == if spec_backoff_raw(
                old(self).error_count_spec() as nat + 1,
            ) < old(self).cap_spec() as nat {
                old(self).error_count_spec() + 1
            } else {
                old(self).error_count_spec() as int
            },
    {
        match self.exporter.export(&message) {
            Ok(_) => {
                self.retry_buffer.decrement_error_count();
                ExportOutcome::Delivered
            },
            Err(_e) => {
                // the error would be logged by the embedding process
                self.retry_buffer.set(message);
                self.retry_buffer.increment_error_count();
                ExportOutcome::Buffered
            },
        }
    }

    /// After a failure, waits out the computed backoff with ±10% uniform
    /// jitter, so synchronized retries across instances spread out.
    fn backoff_sleep(&self)
        requires
            self.wf(),
    {
        if self.retry_buffer.error_count > 0 {
            let backoff = self.retry_buffer.backoff_duration_ms();
            let jitter = jitter_permille();
            proof {
                assert(backoff * (900 + jitter) <= BACKOFF_CAP_LIMIT_MS * 1100)
                    by (nonlinear_arith)
                    requires
                        backoff <= BACKOFF_CAP_LIMIT_MS,
                        jitter <= 200,
                ;
            }
            // backoff * (900 + jitter) / 1000 lies within [0.9, 1.1] of the delay
            let jittered = backoff * (900 + jitter) / 1000;
            sleep_ms(jittered);
        }
    }

    /// One beat of the consumer run loop: take the retried or next message,
    /// attempt its export, and wait out any backoff. Returns whether the
    /// loop is over, which it is only once the producer side has
    /// disconnected and no retry is buffered: the loop never abandons a
    /// buffered message. The loop itself runs in the embedding process.
    pub fn run_once(&mut self, receiver: &crossbeam_channel::Receiver<Message>) -> (done: bool)
        requires
            old(self).wf(),
        ensures
            final(self).wf(),
            final(self).cap_spec() == old(self).cap_spec(),
            final(self).exporter_spec() == old(self).exporter_spec(),
            done ==> old(self).pending() is None && final(self).pending() is None,
    {
        match self.receive(receiver) {
            None => true,
            Some(message) => {
                if message.ready() {
                    self.export(message);
                    self.backoff_sleep();
                }
                // a message with no metrics is a producer bug: it is
                // dropped here rather than handed to the sink
                false
            },
        }
    }
}

} // verus!

use crate::config::exporters_ok;
use crate::config::ExporterSelection;
use crate::config::InfluxDbVersion;
use crate::config::UptionConfig;
use crate::exporters::influxdb_v1::spec_v1_write_url;
use crate::exporters::influxdb_v1::InfluxDbv1;
use crate::exporters::influxdb_v2::spec_v2_write_url;
use crate::exporters::influxdb_v2::InfluxDbv2;
use crate::exporters::logger::Logger;
use crate::exporters::stdout::Stdout;

verus! {

/// The closed registry of sink descriptors a configuration can select.
/// The stdout and log sinks transmit on their own; for the InfluxDB sinks
/// the embedding process carries the HTTP request.
pub enum SinkKind {
    InfluxDbV1(InfluxDbv1),
    InfluxDbV2(InfluxDbv2),
    Stdout(Stdout),
    Logger(Logger),
}

impl ExporterScheduler<SinkKind> {
    /// Builds the export stage from a validated configuration snapshot.
    pub fn from_config(config: &UptionConfig) -> (r: Self)
        requires
            exporters_ok(&config.exporters),
        ensures
            r.wf(),
            r.pending() is None,
            r.error_count_spec() == 0,
            r.cap_spec() == 120000,
            config.exporters.exporter is Stdout ==> r.exporter_spec() is Stdout,
            config.exporters.exporter is Logger ==> r.exporter_spec() is Logger,
            (config.exporters.exporter is InfluxDb && config.exporters.influxdb.version is V1)
                ==> (r.exporter_spec() matches SinkKind::InfluxDbV1(v) && v.url_view()
                == spec_v1_write_url(
                config.exporters.influxdb.url->Some_0.text_view(),
                config.exporters.influxdb.database@,
            ) && v.username_view() == config.exporters.influxdb.username@ && v.password_view()
                == config.exporters.influxdb.password@ && v.timeout_spec()
                == config.exporters.influxdb.timeout.0),
            (config.exporters.exporter is InfluxDb && config.exporters.influxdb.version is V2)
                ==> (r.exporter_spec() matches SinkKind::InfluxDbV2(v) && v.url_view()
                == spec_v2_write_url(
                config.exporters.influxdb.url->Some_0.text_view(),
                config.exporters.influxdb.bucket@,
                config.exporters.influxdb.organization@,
            ) && v.token_view() == config.exporters.influxdb.token@ && v.timeout_spec()
                == config.exporters.influxdb.timeout.0),
    {
        match config.exporters.exporter {
            ExporterSelection::InfluxDb => {
                let influx = &config.exporters.influxdb;
                let url = match &influx.url {
                    Some(u) => u,
                    None => {
                        proof {
                            assert(false);
                        }
                        unreached()
                    },
                };
                match influx.version {
                    InfluxDbVersion::V1 => ExporterScheduler::new(
                        SinkKind::InfluxDbV1(
                            InfluxDbv1::new(
                                url,
                                influx.database.as_str(),
                                influx.username.as_str(),
                                influx.password.as_str(),
                                influx.timeout,
                            ),
                        ),
                    ),
                    InfluxDbVersion::V2 => ExporterScheduler::new(
                        SinkKind::InfluxDbV2(
                            InfluxDbv2::new(
                                url,
                                influx.bucket.as_str(),
                                influx.organization.as_str(),
                                influx.token.as_str(),
                                influx.timeout,
                            ),
                        ),
                    ),
                }
            },
            ExporterSelection::Stdout => ExporterScheduler::new(SinkKind::Stdout(Stdout::new())),
            ExporterSelection::Logger => ExporterScheduler::new(SinkKind::Logger(Logger::new())),
        }
    }
}

} // verus!
