//! InfluxDB v2 sink: builds the `/api/v2/write` endpoint URL and the token
//! header value, and decides from each response whether the write
//! succeeded, was permanently rejected (logged and dropped), or should be
//! retried. Sending the request is the embedding process's concern.
use vstd::prelude::*;
use vstd::string::StrSliceExecFns;
use vstd::string::StringExecFns;

use crate::config::Timeout;
use crate::error::Error;
use crate::exporters::influxdb::json_str_field;
use crate::exporters::influxdb::json_string_field;
use crate::strutil::spec_dec_digits;
use crate::strutil::u128_to_dec;
use crate::url::url_append_pair;
use crate::url::url_set_path;
use crate::url::HttpUrl;

verus! {

/// The `/api/v2/write` endpoint for a v2 server: the base URL with that
/// path and the `bucket`, `org` and `precision=ms` query pairs.
pub open spec fn spec_v2_write_url(base: Seq<char>, bucket: Seq<char>, org: Seq<char>) -> Seq<
    char,
> {
    let s1 = match url_set_path(base, "api/v2/write"@) {
        Some(t) => t,
        None => base,
    };
    let s2 = match url_append_pair(s1, "bucket"@, bucket) {
        Some(t) => t,
        None => s1,
    };
    let s3 = match url_append_pair(s2, "org"@, org) {
        Some(t) => t,
        None => s2,
    };
    match url_append_pair(s3, "precision"@, "ms"@) {
        Some(t) => t,
        None => s3,
    }
}

/// The InfluxDB v2 sink's configuration.
pub struct InfluxDbv2 {
    url: HttpUrl,
    token: String,
    timeout_secs: u64,
}

impl InfluxDbv2 {
    /// The write endpoint's canonical text.
    pub closed spec fn url_view(&self) -> Seq<char> {
        self.url.text_view()
    }

    /// The API token.
    pub closed spec fn token_view(&self) -> Seq<char> {
        self.token@
    }

    /// The request timeout, in seconds.
    pub closed spec fn timeout_spec(&self) -> u64 {
        self.timeout_secs
    }

    /// A sink writing to one server, bucket and organization.
    pub fn new(url: &HttpUrl, bucket: &str, organization: &str, token: &str, timeout: Timeout)
        -> (r: InfluxDbv2)
        ensures
            r.url_view() == spec_v2_write_url(url.text_view(), bucket@, organization@),
            r.token_view() == token@,
            r.timeout_spec() == timeout.0,
    {
        let mut u = url.clone();
        u.set_path("api/v2/write");
        u.append_query_pair("bucket", bucket);
        u.append_query_pair("org", organization);
        u.append_query_pair("precision", "ms");
        InfluxDbv2 { url: u, token: token.to_owned(), timeout_secs: timeout.get() }
    }

    /// The write endpoint's canonical text.
    pub fn url_str(&self) -> (r: &str)
        ensures
            r@ == self.url_view(),
    {
        self.url.as_str()
    }

    /// The request timeout, in seconds.
    pub fn timeout_secs(&self) -> (r: u64)
        ensures
            r == self.timeout_spec(),
    {
        self.timeout_secs
    }

    /// The `Authorization` header's value: `Token <token>`.
    pub fn format_token(&self) -> (r: String)
        ensures
            r@ == "Token "@ + self.token_view(),
    {
        let mut r: String = "Token ".to_owned();
        r.append(self.token.as_str());
        r
    }

    /// Decides one write response: 204 is success; 400 means the payload
    /// is permanently rejected, so it is dropped rather than retried (the
    /// embedding process logs it); everything else is a retried failure
    /// whose context carries the server's `message` field, if one parses.
    pub fn handle_response_errors(&self, status: u16, body: &str) -> (r: Result<(), Error>)
        ensures
            r is Ok <==> (status == 204 || status == 400),
            r matches Err(e) ==> e.msg_view() == "InfluxDB server returned unexpected HTTP status '"@
                + spec_dec_digits(status as int) + "'"@ && e.context_opt() == json_str_field(
                body@,
                "message"@,
            ) && e.source_opt() is None && e.cause_opt() is None,
    {
        if status == 204 {
            return Ok(());
        }
        if status == 400 {
            // permanently rejected payloads are not retried
            return Ok(());
        }
        let mut msg: String = "InfluxDB server returned unexpected HTTP status '".to_owned();
        let digits = u128_to_dec(status as u128);
        msg.append(digits.as_str());
        msg.append("'");
        let err = Error::new(msg.as_str());
        proof {
            assert(msg@ =~= "InfluxDB server returned unexpected HTTP status '"@
                + spec_dec_digits(status as int) + "'"@);
        }
        match json_string_field(body, "message") {
            Some(context) => Err(err.set_context(context.as_str())),
            None => Err(err),
        }
    }
}

} // verus!
