//! The ways a fetch or a decode can fail.
use vstd::prelude::*;

verus! {

/// roxmltree's error for text that is not well-formed XML.
#[verifier::external_type_specification]
#[verifier::external_body]
pub struct ExXmlError(roxmltree::Error);

/// time's error for text that does not follow a format description.
#[verifier::external_type_specification]
#[verifier::external_body]
pub struct ExTimeParseError(time::error::Parse);

/// std's error for bytes that are not UTF-8.
#[verifier::external_type_specification]
#[verifier::external_body]
pub struct ExUtf8Error(std::str::Utf8Error);

/// http's error, here for text that is not a URI.
#[verifier::external_type_specification]
#[verifier::external_body]
pub struct ExHttpError(hyper::http::Error);

/// hyper's error for a failed exchange with the server.
#[verifier::external_type_specification]
#[verifier::external_body]
pub struct ExHyperError(hyper::Error);

/// Why a well-formed document does not fit the feed schema.
#[derive(Debug)]
pub enum DecodeError {
    /// A required element or attribute, by name, is absent.
    Missing(String),
    /// An element or attribute, by name, holds text outside its type.
    Invalid(String),
    /// A publication date is not an RFC 2822 date-time.
    Date(time::error::Parse),
}

/// Every way a fetch or a decode fails.
#[derive(Debug)]
pub enum RssError {
    /// The request target is not a URI.
    HttpError(hyper::http::Error),
    /// The transport failed.
    HttpStreamError(hyper::Error),
    /// The body is not UTF-8.
    EncodingError(std::str::Utf8Error),
    /// A status that is neither success nor a redirect that can be followed.
    UnexpectedResponse(u16),
    /// Well-formed XML that does not fit the feed schema.
    XmlDecode(DecodeError),
    /// Text that is not well-formed XML.
    XmlParse(roxmltree::Error),
    /// A redirect beyond the allowed number of hops.
    TooManyRedirects,
}

impl RssError {
    /// A one-line description of the error kind.
    pub fn kind_name(&self) -> (r: &'static str)
        ensures
            r@ == match self {
                RssError::HttpError(_) => "http error"@,
                RssError::HttpStreamError(_) => "http error"@,
                RssError::EncodingError(_) => "encoding error"@,
                RssError::UnexpectedResponse(_) => "unexpected response code"@,
                RssError::XmlDecode(_) => "xml decode error"@,
                RssError::XmlParse(_) => "xml parse error"@,
                RssError::TooManyRedirects => "too many redirects"@,
            },
    {
        match self {
            RssError::HttpError(_) => "http error",
            RssError::HttpStreamError(_) => "http error",
            RssError::EncodingError(_) => "encoding error",
            RssError::UnexpectedResponse(_) => "unexpected response code",
            RssError::XmlDecode(_) => "xml decode error",
            RssError::XmlParse(_) => "xml parse error",
            RssError::TooManyRedirects => "too many redirects",
        }
    }
}

} // verus!
