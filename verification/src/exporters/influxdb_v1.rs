//! InfluxDB v1 sink: builds the `/write` endpoint URL and decides from
//! each response whether the write succeeded, was permanently rejected
//! (logged and dropped), or should be retried. Sending the request is the
//! embedding process's concern.
use vstd::prelude::*;
use vstd::string::StrSliceExecFns;
use vstd::string::StringExecFns;

use crate::config::Timeout;
use crate::error::Error;
use crate::exporters::influxdb::json_str_field;
use crate::exporters::influxdb::json_string_field;
use crate::strutil::spec_dec_digits;
use crate::strutil::u128_to_dec;
use crate::url::url_append_pair;
use crate::url::url_set_path;
use crate::url::HttpUrl;

verus! {

/// The `/write` endpoint for a v1 server: the base URL with the `write`
/// path and the `db` and `precision=ms` query pairs.
pub open spec fn spec_v1_write_url(base: Seq<char>, db: Seq<char>) -> Seq<char> {
    let s1 = match url_set_path(base, "write"@) {
        Some(t) => t,
        None => base,
    };
    let s2 = match url_append_pair(s1, "db"@, db) {
        Some(t) => t,
        None => s1,
    };
    match url_append_pair(s2, "precision"@, "ms"@) {
        Some(t) => t,
        None => s2,
    }
}

/// The InfluxDB v1 sink's configuration.
pub struct InfluxDbv1 {
    url: HttpUrl,
    username: String,
    password: String,
    timeout_secs: u64,
}

impl InfluxDbv1 {
    /// The write endpoint's canonical text.
    pub closed spec fn url_view(&self) -> Seq<char> {
        self.url.text_view()
    }

    /// The basic-auth user name.
    pub closed spec fn username_view(&self) -> Seq<char> {
        self.username@
    }

    /// The basic-auth password.
    pub closed spec fn password_view(&self) -> Seq<char> {
        self.password@
    }

    /// The request timeout, in seconds.
    pub closed spec fn timeout_spec(&self) -> u64 {
        self.timeout_secs
    }

    /// A sink writing to one server and database.
    pub fn new(url: &HttpUrl, database: &str, username: &str, password: &str, timeout: Timeout)
        -> (r: InfluxDbv1)
        ensures
            r.url_view() == spec_v1_write_url(url.text_view(), database@),
            r.username_view() == username@,
            r.password_view() == password@,
            r.timeout_spec() == timeout.0,
    {
        let mut u = url.clone();
        u.set_path("write");
        u.append_query_pair("db", database);
        u.append_query_pair("precision", "ms");
        InfluxDbv1 {
            url: u,
            username: username.to_owned(),
            password: password.to_owned(),
            timeout_secs: timeout.get(),
        }
    }

    /// The write endpoint's canonical text.
    pub fn url_str(&self) -> (r: &str)
        ensures
            r@ == self.url_view(),
    {
        self.url.as_str()
    }

    /// The basic-auth user name.
    pub fn username_str(&self) -> (r: &String)
        ensures
            r@ == self.username_view(),
    {
        &self.username
    }

    /// The basic-auth password.
    pub fn password_str(&self) -> (r: &String)
        ensures
            r@ == self.password_view(),
    {
        &self.password
    }

    /// The request timeout, in seconds.
    pub fn timeout_secs(&self) -> (r: u64)
        ensures
            r == self.timeout_spec(),
    {
        self.timeout_secs
    }

    /// Decides one write response: 204 is success; 400 means the payload
    /// is permanently rejected, so it is dropped rather than retried (the
    /// embedding process logs it); everything else is a retried failure
    /// whose context carries the server's `error` field, if one parses.
    pub fn handle_response_errors(&self, status: u16, body: &str) -> (r: Result<(), Error>)
        ensures
            r is Ok <==> (status == 204 || status == 400),
            r matches Err(e) ==> e.msg_view() == "InfluxDB server returned unexpected HTTP status '"@
                + spec_dec_digits(status as int) + "'"@ && e.context_opt() == json_str_field(
                body@,
                "error"@,
            ) && e.source_opt() is None && e.cause_opt() is None,
    {
        if status == 204 {
            return Ok(());
        }
        if status == 400 {
            // permanently rejected payloads are not retried
            return Ok(());
        }
        let mut msg: String = "InfluxDB server returned unexpected HTTP status '".to_owned();
        let digits = u128_to_dec(status as u128);
        msg.append(digits.as_str());
        msg.append("'");
        let err = Error::new(msg.as_str());
        proof {
            reveal_strlit("'");
            assert("'"@ =~= seq!['\'']);
            assert(msg@ =~= "InfluxDB server returned unexpected HTTP status '"@
                + spec_dec_digits(status as int) + "'"@);
        }
        match json_string_field(body, "error") {
            Some(context) => Err(err.set_context(context.as_str())),
            None => Err(err),
        }
    }
}

} // verus!
