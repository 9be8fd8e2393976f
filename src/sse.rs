use vstd::prelude::*;

use eventsource_client::ClientBuilder;

use crate::scheme::{parse_url, resolve_scheme, scheme_for, url_parses, url_scheme, UrlScheme};

verus! {

#[verifier::external_type_specification]
#[verifier::external_body]
pub struct ExClientBuilder(ClientBuilder);

#[verifier::external_type_specification]
#[verifier::external_body]
pub struct ExEventSourceError(eventsource_client::Error);

/// Whether `eventsource_client::ClientBuilder::for_url` accepts the text.
pub uninterp spec fn builder_accepts(url: Seq<char>) -> bool;

/// Relies on `eventsource_client::ClientBuilder::for_url`: it fails exactly
/// when the text does not parse as an HTTP URI, which depends on the text alone.
#[verifier::external_body]
fn builder_for(url: &str) -> (r: Result<ClientBuilder, eventsource_client::Error>)
    ensures
        r is Ok <==> builder_accepts(url@),
{
    ClientBuilder::for_url(url)
}

/// The transport variant a session for this URL is bound to, if the URL
/// parses and its scheme is served.
pub open spec fn session_scheme(url: Seq<char>) -> Option<UrlScheme> {
    if url_parses(url) {
        scheme_for(url_scheme(url))
    } else {
        None
    }
}

/// A single-use session: a resolved transport variant and the unbuilt client
/// for it.
pub struct ServerEvents {
    client_builder: ClientBuilder,
    scheme: UrlScheme,
}

impl ServerEvents {
    /// The transport variant bound at construction.
    pub closed spec fn bound_scheme(&self) -> UrlScheme {
        self.scheme
    }

    /// Opens a session for an `https` or `http` URL. Absent where the URL does
    /// not parse, has another scheme, or the transport refuses it.
    pub fn new(url: &str) -> (r: Option<Self>)
        ensures
            r is Some <==> session_scheme(url@) is Some && builder_accepts(url@),
            r matches Some(s) ==> session_scheme(url@) == Some(s.bound_scheme()),
            !(url_parses(url@) && (url_scheme(url@) == "https"@ || url_scheme(url@) == "http"@))
                ==> r is None,
            forall|s: Self|
                url_parses(url@) && url_scheme(url@) == "https"@ && r == Some(s)
                    ==> s.bound_scheme() == UrlScheme::Https,
            forall|s: Self|
                url_parses(url@) && url_scheme(url@) == "http"@ && r == Some(s)
                    ==> s.bound_scheme() == UrlScheme::Http,
    {
        proof {
            reveal_strlit("https");
            reveal_strlit("http");
            assert("https"@.len() != "http"@.len());
        }
        let client_builder_result = builder_for(url);
        let scheme = match parse_url(url) {
            Ok(parsed) => match resolve_scheme(parsed.scheme.as_str()) {
                Some(scheme) => scheme,
                None => return None,
            },
            Err(_) => return None,
        };
        match client_builder_result {
            Ok(client_builder) => Some(ServerEvents { client_builder, scheme }),
            Err(_) => None,
        }
    }

    /// The transport variant bound at construction.
    pub fn scheme(&self) -> (r: UrlScheme)
        ensures
            r == self.bound_scheme(),
    {
        self.scheme
    }

    /// Consumes the session, handing out the unbuilt client and the transport
    /// variant it is to be built for.
    pub fn into_parts(self) -> (r: (ClientBuilder, UrlScheme))
        ensures
            r.1 == self.bound_scheme(),
    {
        (self.client_builder, self.scheme)
    }
}

} // verus!
