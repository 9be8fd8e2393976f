use vstd::prelude::*;

use crate::errors::{UrlParseError, UrlParseResult};
use crate::scheme::{parse_url, url_host, url_parses, url_scheme, UrlHost};

verus! {

/// 127.0.0.1 as 32 bits.
pub const IPV4_LOOPBACK: u32 = 0x7f00_0001;

/// ::1 as 128 bits.
pub const IPV6_LOOPBACK: u128 = 1;

/// Whether a host names the local machine.
pub open spec fn is_localhost_spec(host: Option<UrlHost>) -> bool {
    match host {
        Some(UrlHost::Domain(d)) => d@ == "localhost"@,
        Some(UrlHost::Ipv4(a)) => a == IPV4_LOOPBACK,
        Some(UrlHost::Ipv6(a)) => a == IPV6_LOOPBACK,
        None => false,
    }
}

/// Whether a URL with this scheme and host may be used: it is `https`, or it
/// stays on the local machine.
pub open spec fn admitted(scheme: Seq<char>, host: Option<UrlHost>) -> bool {
    scheme == "https"@ || is_localhost_spec(host)
}

/// Whether a host is `localhost` or a loopback address.
pub fn is_localhost(host: &Option<UrlHost>) -> (r: bool)
    ensures
        r == is_localhost_spec(*host),
{
    match host {
        Some(UrlHost::Domain(d)) => *d == "localhost".to_owned(),
        Some(UrlHost::Ipv4(a)) => *a == IPV4_LOOPBACK,
        Some(UrlHost::Ipv6(a)) => *a == IPV6_LOOPBACK,
        None => false,
    }
}

/// The secure-or-local policy on a parsed URL's scheme and host.
pub fn admits(scheme: &str, host: &Option<UrlHost>) -> (r: bool)
    ensures
        r == admitted(scheme@, *host),
{
    scheme.to_owned() == "https".to_owned() || is_localhost(host)
}

/// Parses a URL and accepts it only if it is `https` or points at the local
/// machine.
pub fn check_uri(uri: &str) -> (r: UrlParseResult<url::Url>)
    ensures
        r matches Err(UrlParseError::Parser(_)) <==> !url_parses(uri@),
        r matches Err(UrlParseError::NotHttps) <==> url_parses(uri@) && !admitted(
            url_scheme(uri@),
            url_host(uri@),
        ),
        r is Ok <==> url_parses(uri@) && admitted(url_scheme(uri@), url_host(uri@)),
        !(r matches Err(UrlParseError::NoPath)),
{
    let parsed = match parse_url(uri) {
        Ok(p) => p,
        Err(err) => return Err(UrlParseError::Parser(err)),
    };
    if !admits(parsed.scheme.as_str(), &parsed.host) {
        return Err(UrlParseError::NotHttps);
    }
    Ok(parsed.url)
}

} // verus!
