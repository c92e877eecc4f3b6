//! Host addressing for probes and sinks: validated HTTP(S) URLs, host
//! names, and IPv4 addresses. Parsing and normalizing is delegated to the
//! url crate; the scheme check and everything downstream is verified.
use vstd::prelude::*;
use vstd::string::StringExecFns;

use crate::strutil::spec_dec_digits;
use crate::strutil::str_eq;
use crate::strutil::u128_to_dec;

verus! {

/// What the url crate normalizes a URL string to (its parsed form rendered
/// back to text), or nothing where parsing fails.
pub uninterp spec fn url_normalize(s: Seq<char>) -> Option<Seq<char>>;

/// The scheme of a URL string as the url crate parses it, or nothing where
/// parsing fails.
pub uninterp spec fn url_scheme(s: Seq<char>) -> Option<Seq<char>>;

/// What the url crate renders after replacing the path of a normalized URL.
pub uninterp spec fn url_set_path(s: Seq<char>, path: Seq<char>) -> Option<Seq<char>>;

/// What the url crate renders after appending one query pair to a
/// normalized URL.
pub uninterp spec fn url_append_pair(s: Seq<char>, key: Seq<char>, value: Seq<char>) -> Option<
    Seq<char>,
>;

/// What the url crate normalizes a host string to, or nothing where
/// parsing fails.
pub uninterp spec fn host_canon(s: Seq<char>) -> Option<Seq<char>>;

/// Relies on url::Url::parse and Url::as_str: parsing is a function of the
/// input text alone; the canonical text is the parsed URL rendered back.
/// Parsing succeeds exactly when a scheme can be read (the two names agree
/// on which inputs parse).
#[verifier::external_body]
fn parse_url_canonical(s: &str) -> (r: Result<String, String>)
    ensures
        r matches Ok(t) ==> url_normalize(s@) == Some(t@) && url_scheme(s@) is Some,
        r is Err ==> url_normalize(s@) is None && url_scheme(s@) is None,
{
    match url::Url::parse(s) {
        Ok(u) => Ok(u.as_str().to_string()),
        Err(e) => Err(e.to_string()),
    }
}

/// Relies on url::Url::parse and Url::scheme: the scheme is a function of
/// the input text alone.
#[verifier::external_body]
fn parse_url_scheme(s: &str) -> (r: Option<String>)
    ensures
        r matches Some(t) ==> url_scheme(s@) == Some(t@),
        r is None ==> url_scheme(s@) is None,
{
    match url::Url::parse(s) {
        Ok(u) => Some(u.scheme().to_string()),
        Err(_) => None,
    }
}

/// Relies on url::Url::parse, Url::set_path and Url::as_str: the rewritten
/// URL is a function of the URL text and the new path alone.
#[verifier::external_body]
fn rewrite_url_path(s: &str, path: &str) -> (r: Option<String>)
    ensures
        r matches Some(t) ==> url_set_path(s@, path@) == Some(t@),
        r is None ==> url_set_path(s@, path@) is None,
{
    match url::Url::parse(s) {
        Ok(mut u) => {
            u.set_path(path);
            Some(u.as_str().to_string())
        },
        Err(_) => None,
    }
}

/// Relies on url::Url::parse, Url::query_pairs_mut (appending one pair)
/// and Url::as_str: the rewritten URL is a function of the URL text and
/// the pair alone.
#[verifier::external_body]
fn rewrite_url_query_pair(s: &str, key: &str, value: &str) -> (r: Option<String>)
    ensures
        r matches Some(t) ==> url_append_pair(s@, key@, value@) == Some(t@),
        r is None ==> url_append_pair(s@, key@, value@) is None,
{
    match url::Url::parse(s) {
        Ok(mut u) => {
            u.query_pairs_mut().append_pair(key, value);
            Some(u.as_str().to_string())
        },
        Err(_) => None,
    }
}

/// Relies on url::Host::parse and its Display rendering: host parsing and
/// canonicalization are functions of the input text alone.
#[verifier::external_body]
fn parse_host_canonical(s: &str) -> (r: Result<String, String>)
    ensures
        r matches Ok(t) ==> host_canon(s@) == Some(t@),
        r is Err ==> host_canon(s@) is None,
{
    match url::Host::parse(s) {
        Ok(h) => Ok(h.to_string()),
        Err(e) => Err(e.to_string()),
    }
}

/// Why a URL or host string was rejected.
#[derive(Debug)]
pub enum ParseError {
    /// The url crate could not parse the text; the payload is its
    /// rendered error.
    UrlParseError(String),
    /// The text parses, but its scheme is neither `http` nor `https`.
    InvalidUrlScheme,
}

/// A URL whose scheme is known to be `http` or `https`, held in the url
/// crate's canonical text form.
pub struct HttpUrl {
    text: String,
}

impl HttpUrl {
    /// The canonical URL text.
    pub closed spec fn text_view(&self) -> Seq<char> {
        self.text@
    }

    /// Parses and validates a URL: accepted exactly when the url crate
    /// parses the text and the scheme is `http` or `https`.
    pub fn parse(input: &str) -> (r: Result<HttpUrl, ParseError>)
        ensures
            r matches Ok(u) ==> url_normalize(input@) == Some(u.text_view()) && (url_scheme(
                input@,
            ) == Some("http"@) || url_scheme(input@) == Some("https"@)),
            r matches Err(ParseError::UrlParseError(_)) ==> url_normalize(input@) is None,
            r matches Err(ParseError::InvalidUrlScheme) ==> url_normalize(input@) is Some
                && url_scheme(input@) != Some("http"@) && url_scheme(input@) != Some("https"@),
    {
        let text = match parse_url_canonical(input) {
            Ok(t) => t,
            Err(e) => {
                return Err(ParseError::UrlParseError(e));
            },
        };
        match parse_url_scheme(input) {
            Some(scheme) => {
                if str_eq(scheme.as_str(), "http") || str_eq(scheme.as_str(), "https") {
                    Ok(HttpUrl { text })
                } else {
                    Err(ParseError::InvalidUrlScheme)
                }
            },
            None => Err(ParseError::InvalidUrlScheme),
        }
    }

    /// The canonical URL text.
    pub fn as_str(&self) -> (r: &str)
        ensures
            r@ == self.text_view(),
    {
        self.text.as_str()
    }

    /// Replaces the URL's path, as the url crate rewrites it; on the
    /// (unreachable) failure to re-parse, the URL is left unchanged.
    pub fn set_path(&mut self, path: &str)
        ensures
            final(self).text_view() == match url_set_path(old(self).text_view(), path@) {
                Some(t) => t,
                None => old(self).text_view(),
            },
    {
        match rewrite_url_path(self.text.as_str(), path) {
            Some(t) => {
                self.text = t;
            },
            None => {},
        }
    }

    /// Appends one query pair, as the url crate rewrites it; on the
    /// (unreachable) failure to re-parse, the URL is left unchanged.
    pub fn append_query_pair(&mut self, key: &str, value: &str)
        ensures
            final(self).text_view() == match url_append_pair(
                old(self).text_view(),
                key@,
                value@,
            ) {
                Some(t) => t,
                None => old(self).text_view(),
            },
    {
        match rewrite_url_query_pair(self.text.as_str(), key, value) {
            Some(t) => {
                self.text = t;
            },
            None => {},
        }
    }
}

impl Clone for HttpUrl {
    fn clone(&self) -> (r: Self)
        ensures
            r.text_view() == self.text_view(),
    {
        HttpUrl { text: self.text.clone() }
    }
}

/// A host name or address, held in the url crate's canonical text form.
pub enum Host {
    Host(String),
}

impl Host {
    /// The canonical host text.
    pub open spec fn text_view(&self) -> Seq<char> {
        match self {
            Host::Host(s) => s@,
        }
    }

    /// Parses a host name or IP address: accepted exactly when the url
    /// crate parses it.
    pub fn parse(input: &str) -> (r: Result<Host, ParseError>)
        ensures
            r matches Ok(h) ==> host_canon(input@) == Some(h.text_view()),
            r is Err ==> host_canon(input@) is None,
            r matches Err(e) ==> e is UrlParseError,
    {
        match parse_host_canonical(input) {
            Ok(t) => Ok(Host::Host(t)),
            Err(e) => Err(ParseError::UrlParseError(e)),
        }
    }

    /// The canonical host text.
    pub fn as_text(&self) -> (r: &String)
        ensures
            r@ == self.text_view(),
    {
        match self {
            Host::Host(s) => s,
        }
    }
}

impl Clone for Host {
    fn clone(&self) -> (r: Self)
        ensures
            r.text_view() == self.text_view(),
    {
        match self {
            Host::Host(s) => Host::Host(s.clone()),
        }
    }
}

/// An IPv4 address as four octets, rendered in dotted decimal form.
#[derive(Clone, Copy, PartialEq, Eq, Structural)]
pub struct Ipv4Address {
    pub a: u8,
    pub b: u8,
    pub c: u8,
    pub d: u8,
}

/// The dotted decimal rendering of an IPv4 address.
pub open spec fn spec_ipv4_text(ip: Ipv4Address) -> Seq<char> {
    spec_dec_digits(ip.a as int) + seq!['.'] + spec_dec_digits(ip.b as int) + seq!['.']
        + spec_dec_digits(ip.c as int) + seq!['.'] + spec_dec_digits(ip.d as int)
}

impl Ipv4Address {
    /// An address from its four octets.
    pub fn new(a: u8, b: u8, c: u8, d: u8) -> (r: Ipv4Address)
        ensures
            r == (Ipv4Address { a, b, c, d }),
    {
        Ipv4Address { a, b, c, d }
    }

    /// Renders the address in dotted decimal form.
    pub fn render(&self) -> (r: String)
        ensures
            r@ == spec_ipv4_text(*self),
    {
        let mut r = u128_to_dec(self.a as u128);
        r.append(".");
        let b = u128_to_dec(self.b as u128);
        r.append(b.as_str());
        r.append(".");
        let c = u128_to_dec(self.c as u128);
        r.append(c.as_str());
        r.append(".");
        let d = u128_to_dec(self.d as u128);
        r.append(d.as_str());
        proof {
            reveal_strlit(".");
            assert("."@ =~= seq!['.']);
            assert(r@ =~= spec_ipv4_text(*self));
        }
        r
    }
}

} // verus!
