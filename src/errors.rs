use vstd::prelude::*;
use vstd::string::StringExecFns;

verus! {

/// Why a URL was refused by the admission check.
#[derive(Debug)]
pub enum UrlParseError {
    NoPath,
    NotHttps,
    Parser(url::ParseError),
}

#[verifier::external_type_specification]
#[verifier::external_body]
pub struct ExParseError(url::ParseError);

/// What `url::ParseError`'s `Display` writes for an error.
pub uninterp spec fn parse_error_text(e: url::ParseError) -> Seq<char>;

/// Relies on the `Display` impl of `url::ParseError`: one fixed text per kind of error.
#[verifier::external_body]
fn describe_parse_error(e: &url::ParseError) -> (r: String)
    ensures
        r@ == parse_error_text(*e),
{
    e.to_string()
}

pub type UrlParseResult<T> = Result<T, UrlParseError>;

impl UrlParseError {
    pub open spec fn message_spec(&self) -> Seq<char> {
        match self {
            UrlParseError::NoPath => "URL path is missing."@,
            UrlParseError::NotHttps => "The URL protocol should be https."@,
            UrlParseError::Parser(e) => "Error while parsing the URL: "@ + parse_error_text(*e),
        }
    }

    /// The human-readable description of the error.
    pub fn message(&self) -> (r: String)
        ensures
            r@ == self.message_spec(),
    {
        match self {
            UrlParseError::NoPath => "URL path is missing.".to_owned(),
            UrlParseError::NotHttps => "The URL protocol should be https.".to_owned(),
            UrlParseError::Parser(e) => {
                let text = describe_parse_error(e);
                "Error while parsing the URL: ".to_owned().concat(text.as_str())
            },
        }
    }
}

/// Failures of the request layer.
#[derive(Debug)]
pub enum RequestError {
    NotJSON,
    NoUTF8,
    NetworkError(String),
    SerializeError(String),
    NotFoundOrNullBody,
}

pub type RequestResult<T> = Result<T, RequestError>;

impl RequestError {
    pub open spec fn message_spec(&self) -> Seq<char> {
        match self {
            RequestError::NotJSON => "Invalid JSON"@,
            RequestError::NoUTF8 => "Utf8 error"@,
            RequestError::NetworkError(m) => "Network error: "@ + m@,
            RequestError::SerializeError(m) => "Serialize error: "@ + m@,
            RequestError::NotFoundOrNullBody => "Body is null or record is not found"@,
        }
    }

    /// The human-readable description of the error.
    pub fn message(&self) -> (r: String)
        ensures
            r@ == self.message_spec(),
    {
        match self {
            RequestError::NotJSON => "Invalid JSON".to_owned(),
            RequestError::NoUTF8 => "Utf8 error".to_owned(),
            RequestError::NetworkError(m) => "Network error: ".to_owned().concat(m.as_str()),
            RequestError::SerializeError(m) => "Serialize error: ".to_owned().concat(m.as_str()),
            RequestError::NotFoundOrNullBody => "Body is null or record is not found".to_owned(),
        }
    }
}

/// Failure of the event stream's connection.
#[derive(Debug)]
pub enum ServerEventError {
    ConnectionError,
}

impl ServerEventError {
    pub open spec fn message_spec(&self) -> Seq<char> {
        match self {
            ServerEventError::ConnectionError => "Connection error for server events"@,
        }
    }

    /// The human-readable description of the error.
    pub fn message(&self) -> (r: String)
        ensures
            r@ == self.message_spec(),
    {
        match self {
            ServerEventError::ConnectionError => "Connection error for server events".to_owned(),
        }
    }
}

} // verus!
