//! Client-side session over a server-sent event stream: picks the transport
//! from the URL scheme and turns raw protocol frames into application events.

pub mod errors;
pub mod frames;
pub mod scheme;
pub mod sse;
pub mod utils;

pub use errors::{RequestError, RequestResult, ServerEventError, UrlParseError, UrlParseResult};
pub use frames::{filter_frame, filter_frames, filter_item, RawFrame};
pub use scheme::{resolve_scheme, ParsedUrl, UrlHost, UrlScheme};
pub use utils::{admits, check_uri, is_localhost};
pub use sse::ServerEvents;
