use vstd::prelude::*;

verus! {

#[verifier::external_type_specification]
#[verifier::external_body]
pub struct ExUrl(url::Url);

/// The transport variant a session uses.
#[derive(PartialEq, Eq, Structural, Clone, Copy, Debug)]
pub enum UrlScheme {
    /// TLS transport, for `https`.
    Https,
    /// Plain TCP transport, for `http`.
    Http,
}

/// The host of a parsed URL, as plain values.
#[derive(PartialEq, Eq, Debug)]
pub enum UrlHost {
    Domain(String),
    /// An IPv4 address as its 32 bits, most significant octet first.
    Ipv4(u32),
    /// An IPv6 address as its 128 bits, most significant segment first.
    Ipv6(u128),
}

/// A parsed URL, together with the parts of it that the library reads.
pub struct ParsedUrl {
    pub url: url::Url,
    pub scheme: String,
    pub host: Option<UrlHost>,
}

/// Whether `url::Url::parse` accepts the text.
pub uninterp spec fn url_parses(s: Seq<char>) -> bool;

/// The scheme that `url::Url::scheme` gives for the URL parsed from the text.
pub uninterp spec fn url_scheme(s: Seq<char>) -> Seq<char>;

/// The host that `url::Url::host` gives for the URL parsed from the text.
pub uninterp spec fn url_host(s: Seq<char>) -> Option<UrlHost>;

/// Relies on `url::Url::parse`, then on `Url::scheme` and `Url::host` of the
/// URL it returns: whether the text parses, and the scheme and host it then
/// has, depend on the text alone.
#[verifier::external_body]
pub(crate) fn parse_url(s: &str) -> (r: Result<ParsedUrl, url::ParseError>)
    ensures
        r is Ok <==> url_parses(s@),
        r matches Ok(p) ==> p.scheme@ == url_scheme(s@) && p.host == url_host(s@),
{
    let url = url::Url::parse(s)?;
    let host = match url.host() {
        None => None,
        Some(url::Host::Domain(d)) => Some(UrlHost::Domain(d.to_string())),
        Some(url::Host::Ipv4(a)) => Some(UrlHost::Ipv4(u32::from(a))),
        Some(url::Host::Ipv6(a)) => Some(UrlHost::Ipv6(u128::from(a))),
    };
    Ok(ParsedUrl { scheme: url.scheme().to_string(), host, url })
}

/// The transport variant that a scheme selects, if any.
pub open spec fn scheme_for(scheme: Seq<char>) -> Option<UrlScheme> {
    if scheme == "https"@ {
        Some(UrlScheme::Https)
    } else if scheme == "http"@ {
        Some(UrlScheme::Http)
    } else {
        None
    }
}

/// Selects the transport variant for a URL scheme: `https` is secure, `http`
/// plaintext, and no other scheme is served.
pub fn resolve_scheme(scheme: &str) -> (r: Option<UrlScheme>)
    ensures
        r == scheme_for(scheme@),
{
    let s = scheme.to_owned();
    if s == "https".to_owned() {
        Some(UrlScheme::Https)
    } else if s == "http".to_owned() {
        Some(UrlScheme::Http)
    } else {
        None
    }
}

} // verus!
