//! Ping probe: one ICMP echo through the system's `ping` command,
//! reporting the round-trip time. Running the command is the embedding
//! process's concern; building its command line and parsing the latency
//! out of its output — the `= <digits>.<digits>/` figure on the last line —
//! is verified here.
use vstd::prelude::*;
use vstd::string::StrSliceExecFns;
use vstd::string::StringExecFns;

use crate::config::Timeout;
use crate::error::Error;
use crate::message::ready_for_sink;
use crate::message::Message;
use crate::strutil::spec_dec_digits;
use crate::strutil::u128_to_dec;
use crate::url::Host;
use crate::value::PayloadValue;

verus! {

/// A decimal digit.
pub open spec fn is_digit(c: char) -> bool {
    48 <= c as int <= 57
}

/// The text with one trailing line break removed.
pub open spec fn strip_trailing_newline(s: Seq<char>) -> Seq<char> {
    if s.len() > 0 && s.last() == '\n' {
        s.drop_last()
    } else {
        s
    }
}

/// Everything after the last line break.
pub open spec fn after_last_newline(s: Seq<char>) -> Seq<char>
    decreases s.len(),
{
    if s.len() == 0 {
        s
    } else if s.last() == '\n' {
        Seq::empty()
    } else {
        after_last_newline(s.drop_last()).push(s.last())
    }
}

/// The last line of a command's output: the text after the last line
/// break, a trailing break not counting.
pub open spec fn spec_last_line(s: Seq<char>) -> Seq<char> {
    after_last_newline(strip_trailing_newline(s))
}

/// A latency figure stands in line `s` at `i`: `= ` at `i`, a non-empty
/// digit run, the dot at `j`, a non-empty digit run, and the slash at `k`.
pub open spec fn latency_at(s: Seq<char>, i: int, j: int, k: int) -> bool {
    &&& 0 <= i
    &&& i + 2 < j
    &&& j + 1 < k
    &&& k < s.len()
    &&& s[i] == '='
    &&& s[i + 1] == ' '
    &&& forall|m: int| i + 2 <= m < j ==> is_digit(#[trigger] s[m])
    &&& s[j] == '.'
    &&& forall|m: int| j + 1 <= m < k ==> is_digit(#[trigger] s[m])
    &&& s[k] == '/'
}

/// A latency figure stands at `i` for some dot and slash positions.
pub open spec fn has_latency_at(s: Seq<char>, i: int) -> bool {
    exists|j: int, k: int| latency_at(s, i, j, k)
}

/// `t` is the leftmost latency figure in line `s`.
pub open spec fn first_latency_capture(s: Seq<char>, t: Seq<char>) -> bool {
    exists|i: int, j: int, k: int|
        latency_at(s, i, j, k) && t == s.subrange(i + 2, k) && (forall|i2: int|
            0 <= i2 < i ==> !has_latency_at(s, i2))
}

proof fn lemma_after_last_newline(s: Seq<char>, st: int)
    requires
        0 <= st <= s.len(),
        forall|q: int| st <= q < s.len() ==> s[q] != '\n',
        st > 0 ==> s[st - 1] == '\n',
    ensures
        after_last_newline(s) == s.subrange(st, s.len() as int),
    decreases s.len(),
{
    if s.len() == st {
        if st == 0 {
            assert(after_last_newline(s) =~= s.subrange(0, 0));
        } else {
            assert(s.last() == '\n');
            assert(after_last_newline(s) =~= s.subrange(st, s.len() as int));
        }
    } else {
        assert(s.last() != '\n');
        lemma_after_last_newline(s.drop_last(), st);
        assert(after_last_newline(s) =~= s.subrange(st, s.len() as int));
    }
}

/// Any latency figure at `i` puts its dot exactly where the first digit
/// run from `i + 2` ends; a failure there refutes a figure at `i`.
proof fn lemma_no_figure_dot(s: Seq<char>, i: int, j: int)
    requires
        0 <= i,
        i + 1 < s.len(),
        s[i] == '=',
        s[i + 1] == ' ',
        i + 2 <= j <= s.len(),
        forall|m: int| i + 2 <= m < j ==> is_digit(#[trigger] s[m]),
        j < s.len() ==> !is_digit(s[j]),
        j == i + 2 || j == s.len() || s[j] != '.',
    ensures
        !has_latency_at(s, i),
{
    if has_latency_at(s, i) {
        let (j2, k2) = choose|j2: int, k2: int| latency_at(s, i, j2, k2);
        assert(latency_at(s, i, j2, k2));
        if j2 < j {
            assert(is_digit(s[j2]));
        } else if j2 > j {
            assert(j < s.len());
            assert(is_digit(s[j]));
        } else {
            assert(j2 == j);
            assert(j > i + 2 && j < s.len() && s[j] == '.');
        }
        assert(false);
    }
}

/// With the dot in place, any figure's slash stands exactly where the
/// second digit run ends; a failure there refutes a figure at `i`.
proof fn lemma_no_figure_slash(s: Seq<char>, i: int, j: int, k: int)
    requires
        0 <= i,
        i + 1 < s.len(),
        s[i] == '=',
        s[i + 1] == ' ',
        i + 2 < j < s.len(),
        forall|m: int| i + 2 <= m < j ==> is_digit(#[trigger] s[m]),
        !is_digit(s[j]),
        s[j] == '.',
        j + 1 <= k <= s.len(),
        forall|m: int| j + 1 <= m < k ==> is_digit(#[trigger] s[m]),
        k < s.len() ==> !is_digit(s[k]),
        k == j + 1 || k == s.len() || s[k] != '/',
    ensures
        !has_latency_at(s, i),
{
    if has_latency_at(s, i) {
        let (j2, k2) = choose|j2: int, k2: int| latency_at(s, i, j2, k2);
        assert(latency_at(s, i, j2, k2));
        if j2 < j {
            assert(is_digit(s[j2]));
        } else if j2 > j {
            assert(is_digit(s[j]));
        }
        assert(j2 == j);
        if k2 < k {
            assert(is_digit(s[k2]));
        } else if k2 > k {
            assert(k < s.len());
            assert(is_digit(s[k]));
        } else {
            assert(k2 == k);
            assert(k > j + 1 && k < s.len() && s[k] == '/');
        }
        assert(false);
    }
}

/// The end of the digit run starting at `from`.
fn scan_digits(s: &str, from: usize, len: usize) -> (j: usize)
    requires
        from <= len,
        len == s@.len(),
    ensures
        from <= j <= len,
        forall|m: int| from <= m < j ==> is_digit(#[trigger] s@[m]),
        j < len ==> !is_digit(s@[j as int]),
{
    let mut j: usize = from;
    while j < len
        invariant
            from <= j <= len,
            len == s@.len(),
            forall|m: int| from <= m < j ==> is_digit(#[trigger] s@[m]),
        decreases len - j,
    {
        let c = s.get_char(j);
        if !((c as u32) >= 48 && (c as u32) <= 57) {
            return j;
        }
        j = j + 1;
    }
    j
}

/// The ping probe's configuration: a host to ping and a deadline.
pub struct Ping {
    host: Host,
    timeout_secs: u64,
}

impl Ping {
    /// The pinged host's canonical text.
    pub closed spec fn host_view(&self) -> Seq<char> {
        self.host.text_view()
    }

    /// The deadline handed to the ping command, in seconds.
    pub closed spec fn timeout_spec(&self) -> u64 {
        self.timeout_secs
    }

    /// A probe for one host.
    pub fn new(host: Host, timeout: Timeout) -> (r: Ping)
        ensures
            r.host_view() == host.text_view(),
            r.timeout_spec() == timeout.0,
    {
        Ping { host, timeout_secs: timeout.get() }
    }

    /// The pinged host's canonical text.
    pub fn host_str(&self) -> (r: &String)
        ensures
            r@ == self.host_view(),
    {
        self.host.as_text()
    }

    /// The command whose output the probe parses:
    /// `ping <host> -q -c 1 -w <timeout>`.
    pub fn command_line(&self) -> (r: String)
        ensures
            r@ == "ping "@ + self.host_view() + " -q -c 1 -w "@ + spec_dec_digits(
                self.timeout_spec() as int,
            ),
    {
        let mut r: String = "ping ".to_owned();
        r.append(self.host.as_text().as_str());
        r.append(" -q -c 1 -w ");
        let t = u128_to_dec(self.timeout_secs as u128);
        r.append(t.as_str());
        r
    }

    /// Extracts the leftmost `= <digits>.<digits>/` figure from the last
    /// line of the ping command's output: the round-trip time. Fails
    /// exactly on empty output or a last line without such a figure.
    pub fn parse_latency_from_ping_output(&self, ping_output: &str) -> (r: Result<String, Error>)
        ensures
            r matches Ok(t) ==> first_latency_capture(spec_last_line(ping_output@), t@),
            r is Err ==> ping_output@.len() == 0 || (forall|i: int|
                !has_latency_at(spec_last_line(ping_output@), i)),
            ping_output@.len() == 0 ==> (r matches Err(e) ==> e.msg_view()
                == "Empty ping command output"@),
            (ping_output@.len() > 0 && (exists|i: int|
                has_latency_at(spec_last_line(ping_output@), i))) ==> r is Ok,
            r matches Err(e) ==> ping_output@.len() > 0 ==> e.msg_view()
                == "Failed to parse ping command output"@,
    {
        let n = ping_output.unicode_len();
        if n == 0 {
            return Err(Error::new("Empty ping command output"));
        }
        let e: usize = if ping_output.get_char(n - 1) == '\n' {
            n - 1
        } else {
            n
        };
        let ghost stripped = strip_trailing_newline(ping_output@);
        proof {
            assert(stripped =~= ping_output@.take(e as int));
        }
        let mut st: usize = 0;
        let mut m: usize = 0;
        while m < e
            invariant
                st <= m <= e,
                e <= n,
                n == ping_output@.len(),
                stripped =~= ping_output@.take(e as int),
                forall|q: int| st <= q < m ==> stripped[q] != '\n',
                st > 0 ==> stripped[st - 1] == '\n',
            decreases e - m,
        {
            if ping_output.get_char(m) == '\n' {
                st = m + 1;
            }
            m = m + 1;
        }
        let line = ping_output.substring_char(st, e);
        proof {
            lemma_after_last_newline(stripped, st as int);
            assert(line@ =~= stripped.subrange(st as int, stripped.len() as int));
            assert(line@ == spec_last_line(ping_output@));
        }
        let llen = line.unicode_len();
        let mut i: usize = 0;
        loop
            invariant
                i <= llen,
                llen == line@.len(),
                line@ == spec_last_line(ping_output@),
                ping_output@.len() > 0,
                forall|i2: int| 0 <= i2 < i ==> !has_latency_at(line@, i2),
            decreases llen - i,
        {
            if i >= llen {
                proof {
                    assert forall|i2: int| !has_latency_at(line@, i2) by {
                        if has_latency_at(line@, i2) {
                            let (j2, k2) = choose|j2: int, k2: int| latency_at(line@, i2, j2, k2);
                            assert(latency_at(line@, i2, j2, k2));
                            assert(0 <= i2 < i);
                        }
                    }
                }
                return Err(Error::new("Failed to parse ping command output").set_context(line));
            }
            let c0 = line.get_char(i);
            if (c0 as u32) == 61 && i + 1 < llen && (line.get_char(i + 1) as u32) == 32 {
                let j = scan_digits(line, i + 2, llen);
                if j > i + 2 && j < llen && (line.get_char(j) as u32) == 46 {
                    let k = scan_digits(line, j + 1, llen);
                    if k > j + 1 && k < llen && (line.get_char(k) as u32) == 47 {
                        let t = line.substring_char(i + 2, k);
                        proof {
                            assert(latency_at(line@, i as int, j as int, k as int));
                        }
                        return Ok(t.to_owned());
                    } else {
                        proof {
                            lemma_no_figure_slash(
                                line@,
                                i as int,
                                j as int,
                                k as int,
                            );
                        }
                    }
                } else {
                    proof {
                        lemma_no_figure_dot(line@, i as int, j as int);
                    }
                }
            } else {
                proof {
                    assert(!has_latency_at(line@, i as int)) by {
                        if has_latency_at(line@, i as int) {
                            let (j2, k2) = choose|j2: int, k2: int|
                                latency_at(line@, i as int, j2, k2);
                            assert(latency_at(line@, i as int, j2, k2));
                        }
                    }
                }
            }
            i = i + 1;
        }
    }

    /// One sample from one run of the ping command: the parsed round-trip
    /// time, tagged with the pinged host; or the parse failure, attributed
    /// to this probe.
    pub fn collect_from_output(&self, ping_output: &str) -> (r: Result<Vec<Message>, Error>)
        ensures
            r matches Ok(v) ==> v@.len() == 1 && ready_for_sink(v@[0]) && v@[0].source_view()
                == "ping"@ && v@[0].tag_map() =~= Map::<Seq<char>, Seq<char>>::empty().insert(
                "host"@,
                self.host_view(),
            ) && v@[0].metric_map().dom() =~= Set::<Seq<char>>::empty().insert("latency"@) && (
            v@[0].metric_map()["latency"@] matches PayloadValue::Text(lat) && first_latency_capture(
                spec_last_line(ping_output@),
                lat@,
            )),
            r matches Err(e) ==> e.source_opt() == Some("ping_collector"@),
            r is Err ==> ping_output@.len() == 0 || (forall|i: int|
                !has_latency_at(spec_last_line(ping_output@), i)),
            (ping_output@.len() > 0 && (exists|i: int|
                has_latency_at(spec_last_line(ping_output@), i))) ==> r is Ok,
    {
        let latency = match self.parse_latency_from_ping_output(ping_output) {
            Ok(t) => t,
            Err(e) => {
                return Err(e.set_source("ping_collector"));
            },
        };
        proof {
            reveal_strlit("ping");
        }
        let mut m = Message::new("ping");
        m.insert_metric("latency", PayloadValue::Text(latency));
        m.insert_tag("host", self.host.as_text().as_str());
        let mut v: Vec<Message> = Vec::new();
        v.push(m);
        Ok(v)
    }
}

} // verus!
