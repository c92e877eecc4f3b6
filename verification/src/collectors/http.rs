//! HTTP probe: a HEAD request to a configured URL, reporting the response
//! latency and status code. The request itself is the embedding process's
//! concern; turning its outcome into a sample is verified here.
use vstd::prelude::*;

use crate::config::Timeout;
use crate::message::ready_for_sink;
use crate::message::Message;
use crate::url::HttpUrl;
use crate::value::PayloadValue;

verus! {

/// The HTTP probe's configuration: a target URL and a request timeout.
pub struct HTTP {
    url: HttpUrl,
    timeout_secs: u64,
}

impl HTTP {
    /// The target URL's canonical text.
    pub closed spec fn url_view(&self) -> Seq<char> {
        self.url.text_view()
    }

    /// The request timeout, in seconds.
    pub closed spec fn timeout_spec(&self) -> u64 {
        self.timeout_secs
    }

    /// A probe for one URL.
    pub fn new(url: HttpUrl, timeout: Timeout) -> (r: HTTP)
        ensures
            r.url_view() == url.text_view(),
            r.timeout_spec() == timeout.0,
    {
        HTTP { url, timeout_secs: timeout.get() }
    }

    /// The target URL's canonical text.
    pub fn url_str(&self) -> (r: &str)
        ensures
            r@ == self.url_view(),
    {
        self.url.as_str()
    }

    /// The request timeout, in seconds.
    pub fn timeout_secs(&self) -> (r: u64)
        ensures
            r == self.timeout_spec(),
    {
        self.timeout_secs
    }

    /// The sample for one completed request: the measured latency and the
    /// response status, tagged with the probed URL.
    pub fn message_from_response(&self, latency_ms: u128, status_code: u16) -> (m: Message)
        ensures
            ready_for_sink(m),
            m.source_view() == "http"@,
            m.metric_map() =~= Map::<Seq<char>, PayloadValue>::empty().insert(
                "latency"@,
                PayloadValue::Uint128(latency_ms),
            ).insert("status_code"@, PayloadValue::Uint16(status_code)),
            m.tag_map() =~= Map::<Seq<char>, Seq<char>>::empty().insert(
                "url"@,
                self.url_view(),
            ),
    {
        proof {
            reveal_strlit("http");
        }
        let mut m = Message::new("http");
        m.insert_metric("latency", PayloadValue::Uint128(latency_ms));
        m.insert_metric("status_code", PayloadValue::Uint16(status_code));
        m.insert_tag("url", self.url.as_str());
        m
    }
}

} // verus!
