//! The response container: the text of a feed and what it decodes to.
use vstd::prelude::*;
use vstd::utf8::{decode_utf8, valid_utf8};
use crate::error::RssError;
use crate::feed::Feed;
use crate::schema::{decode_feed, feed_is, feed_ok};
use crate::xml::{parse_xml, xml_nodes_of};

verus! {

/// The text that `bytes` encode as UTF-8, or none where they are not UTF-8.
pub open spec fn utf8_text(bytes: Seq<u8>) -> Option<Seq<char>> {
    if valid_utf8(bytes) {
        Some(decode_utf8(bytes))
    } else {
        None
    }
}

/// Relies on std's `String::from_utf8`, which takes the bytes over as text
/// when they are UTF-8 and reports where they are not.
#[verifier::external_body]
fn text_from_utf8(bytes: Vec<u8>) -> (r: Result<String, std::str::Utf8Error>)
    ensures
        match r {
            Ok(s) => valid_utf8(bytes@) && s@ == decode_utf8(bytes@),
            Err(_) => !valid_utf8(bytes@),
        },
{
    String::from_utf8(bytes).map_err(|e| e.utf8_error())
}

/// A decoded feed together with the text it was decoded from. It exists only
/// where every step succeeded.
#[derive(Debug)]
pub struct RssResponse {
    text: String,
    feed: Feed,
}

/// Whether `r` is what building a response from `text` gives: a parse error
/// for text that is not XML, a decode error for XML outside the schema, else
/// the decoded feed.
pub open spec fn built_from_text(text: Seq<char>, r: Result<RssResponse, RssError>) -> bool {
    match xml_nodes_of(text) {
        None => r matches Err(RssError::XmlParse(_)),
        Some(nodes) => if feed_ok(nodes) {
            r matches Ok(v) && v.text_view() == text && feed_is(nodes, v.feed_view())
        } else {
            r matches Err(RssError::XmlDecode(_))
        },
    }
}

impl RssResponse {
    /// The text the feed was decoded from.
    pub closed spec fn text_view(&self) -> Seq<char> {
        self.text@
    }

    /// The decoded feed.
    pub closed spec fn feed_view(&self) -> Feed {
        self.feed
    }

    /// Decodes a feed from text.
    pub fn from_string(text: String) -> (r: Result<RssResponse, RssError>)
        ensures
            built_from_text(text@, r),
    {
        let doc = match parse_xml(text.as_str()) {
            Ok(d) => d,
            Err(e) => return Err(RssError::XmlParse(e)),
        };
        match decode_feed(&doc) {
            Ok(feed) => Ok(RssResponse { text, feed }),
            Err(e) => Err(RssError::XmlDecode(e)),
        }
    }

    /// Decodes a feed from the bytes of a body, which must be UTF-8.
    pub fn from_bytes(body: Vec<u8>) -> (r: Result<RssResponse, RssError>)
        ensures
            match utf8_text(body@) {
                None => r matches Err(RssError::EncodingError(_)),
                Some(text) => built_from_text(text, r),
            },
    {
        match text_from_utf8(body) {
            Ok(text) => RssResponse::from_string(text),
            Err(e) => Err(RssError::EncodingError(e)),
        }
    }

    /// The decoded feed, valid as long as the response is.
    pub fn borrow_feed(&self) -> (r: &Feed)
        ensures
            *r == self.feed_view(),
    {
        &self.feed
    }

    /// The text the feed was decoded from.
    pub fn text(&self) -> (r: &str)
        ensures
            r@ == self.text_view(),
    {
        self.text.as_str()
    }
}

} // verus!
