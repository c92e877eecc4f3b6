//! DNS probe: an A-record query for a configured host against a configured
//! server, reporting the query latency. The query itself is the embedding
//! process's concern; turning its outcome into a sample is verified here.
use vstd::prelude::*;

use crate::config::Timeout;
use crate::message::ready_for_sink;
use crate::message::Message;
use crate::url::spec_ipv4_text;
use crate::url::Host;
use crate::url::Ipv4Address;
use crate::value::PayloadValue;

verus! {

/// The DNS probe's configuration: a resolver address, a host to look up,
/// and a query timeout.
pub struct Dns {
    server: Ipv4Address,
    host: Host,
    timeout_secs: u64,
}

impl Dns {
    /// The resolver's address.
    pub closed spec fn server_spec(&self) -> Ipv4Address {
        self.server
    }

    /// The looked-up host's canonical text.
    pub closed spec fn host_view(&self) -> Seq<char> {
        self.host.text_view()
    }

    /// The query timeout, in seconds.
    pub closed spec fn timeout_spec(&self) -> u64 {
        self.timeout_secs
    }

    /// A probe for one resolver and host pair.
    pub fn new(server: Ipv4Address, host: Host, timeout: Timeout) -> (r: Dns)
        ensures
            r.server_spec() == server,
            r.host_view() == host.text_view(),
            r.timeout_spec() == timeout.0,
    {
        Dns { server, host, timeout_secs: timeout.get() }
    }

    /// The resolver's address.
    pub fn server(&self) -> (r: Ipv4Address)
        ensures
            r == self.server_spec(),
    {
        self.server
    }

    /// The looked-up host's canonical text.
    pub fn host_str(&self) -> (r: &String)
        ensures
            r@ == self.host_view(),
    {
        self.host.as_text()
    }

    /// The query timeout, in seconds.
    pub fn timeout_secs(&self) -> (r: u64)
        ensures
            r == self.timeout_spec(),
    {
        self.timeout_secs
    }

    /// The sample for one completed query: the measured latency, tagged
    /// with the resolver and the looked-up host.
    pub fn message_from_latency(&self, latency_ms: u128) -> (m: Message)
        ensures
            ready_for_sink(m),
            m.source_view() == "dns"@,
            m.metric_map() =~= Map::<Seq<char>, PayloadValue>::empty().insert(
                "latency"@,
                PayloadValue::Uint128(latency_ms),
            ),
            m.tag_map() =~= Map::<Seq<char>, Seq<char>>::empty().insert(
                "dns_server"@,
                spec_ipv4_text(self.server_spec()),
            ).insert("host"@, self.host_view()),
    {
        proof {
            reveal_strlit("dns");
        }
        let mut m = Message::new("dns");
        m.insert_metric("latency", PayloadValue::Uint128(latency_ms));
        let server_text = self.server.render();
        m.insert_tag("dns_server", server_text.as_str());
        m.insert_tag("host", self.host.as_text().as_str());
        m
    }
}

} // verus!
