//! Fetches an RSS feed over HTTP and decodes it into typed values.
//!
//! The library decides; the caller performs the HTTP exchanges. A fetch starts
//! with [`redirect::Redirects::new`], hands each response to
//! [`redirect::Redirects::on_response`], and decodes the body of a success with
//! [`response::RssResponse::from_bytes`].
use vstd::prelude::*;

pub mod error;
pub mod feed;
pub mod redirect;
pub mod response;
pub mod schema;
pub mod text;
pub mod xml;

pub use error::{DecodeError, RssError};
pub use feed::{Channel, ContentMedium, Enclosure, Feed, Guid, Item, MediaContent, PubDate};
pub use redirect::{Redirects, RssRequest, Step, UriParts};
pub use response::RssResponse;

verus! {

} // verus!
