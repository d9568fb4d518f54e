//! The decoded feed: a channel, its items and what they carry.
use vstd::prelude::*;
use crate::error::DecodeError;
use crate::xml::opt_view;

verus! {

/// The root of a decoded feed.
#[derive(Debug)]
pub struct Feed {
    pub channel: Channel,
}

/// Channel metadata and its items in document order.
#[derive(Debug)]
pub struct Channel {
    pub title: String,
    pub link: String,
    pub description: Option<String>,
    pub language: Option<String>,
    pub items: Vec<Item>,
}

/// One entry of a channel.
#[derive(Debug)]
pub struct Item {
    pub title: Option<String>,
    pub link: Option<String>,
    pub description: Option<String>,
    pub author: Option<String>,
    pub enclosure: Option<Enclosure>,
    pub guid: Option<Guid>,
    pub pub_date: Option<PubDate>,
    pub content: Option<String>,
    pub media: Vec<MediaContent>,
}

/// An identifier of an item, with an explicit permanent-link flag.
#[derive(Debug)]
pub struct Guid {
    pub value: String,
    pub is_perma_link: bool,
}

/// A media file attached to an item.
#[derive(Debug)]
pub struct Enclosure {
    pub url: String,
    pub length: u32,
    pub mime_type: String,
}

/// A namespaced media reference of an item.
#[derive(Debug)]
pub struct MediaContent {
    pub url: Option<String>,
    pub mime_type: Option<String>,
    pub medium: Option<ContentMedium>,
}

/// The kind of a media reference.
#[derive(Debug, Clone, Copy, PartialEq, Eq, Structural)]
pub enum ContentMedium {
    Image,
    Audio,
    Video,
    Document,
    Executable,
}

/// A date-time as seconds since the Unix epoch and the offset from UTC, in
/// seconds, that it was written with.
#[derive(Debug, Clone, Copy, PartialEq, Eq, Structural)]
pub struct PubDate {
    pub unix_timestamp: i64,
    pub offset_seconds: i32,
}

/// The medium that a lowercase word names.
pub open spec fn medium_of(s: Seq<char>) -> Option<ContentMedium> {
    if s == "image"@ {
        Some(ContentMedium::Image)
    } else if s == "audio"@ {
        Some(ContentMedium::Audio)
    } else if s == "video"@ {
        Some(ContentMedium::Video)
    } else if s == "document"@ {
        Some(ContentMedium::Document)
    } else if s == "executable"@ {
        Some(ContentMedium::Executable)
    } else {
        None
    }
}

impl ContentMedium {
    /// Reads a medium, matching its lowercase name exactly.
    pub fn parse(s: &str) -> (r: Option<ContentMedium>)
        ensures
            r == medium_of(s@),
    {
        if crate::xml::str_eq(s, "image") {
            Some(ContentMedium::Image)
        } else if crate::xml::str_eq(s, "audio") {
            Some(ContentMedium::Audio)
        } else if crate::xml::str_eq(s, "video") {
            Some(ContentMedium::Video)
        } else if crate::xml::str_eq(s, "document") {
            Some(ContentMedium::Document)
        } else if crate::xml::str_eq(s, "executable") {
            Some(ContentMedium::Executable)
        } else {
            None
        }
    }
}

/// The instant, as (Unix seconds, offset seconds), that time reads from an
/// RFC 2822 date-time, or none where the text is not one.
pub uninterp spec fn rfc2822_instant(s: Seq<char>) -> Option<(i64, i32)>;

/// The RFC 2822 text that time writes for an instant given as (Unix seconds,
/// offset seconds), or none where it cannot write one.
pub uninterp spec fn rfc2822_text(instant: (i64, i32)) -> Option<Seq<char>>;

/// Relies on time's `OffsetDateTime::parse` with the `Rfc2822` description:
/// the instant read, or its error.
#[verifier::external_body]
fn parse_rfc2822(s: &str) -> (r: Result<(i64, i32), time::error::Parse>)
    ensures
        match r {
            Ok(v) => rfc2822_instant(s@) == Some(v),
            Err(_) => rfc2822_instant(s@) is None,
        },
{
    let t = time::OffsetDateTime::parse(s, &time::format_description::well_known::Rfc2822)?;
    Ok((t.unix_timestamp(), t.offset().whole_seconds()))
}

/// Whether an offset, in seconds, lies strictly between minus one hour and
/// zero. time writes such an offset as `-00MM` and reads that text back as
/// `+00MM`.
pub open spec fn offset_loses_sign(offset_seconds: i32) -> bool {
    -3600 < offset_seconds < 0
}

/// Relies on time's `OffsetDateTime::format` with the `Rfc2822` description,
/// after building the value with `from_unix_timestamp` and `checked_to_offset`.
/// The format refuses an offset with a seconds part and a year outside four
/// digits, and writes every other field in full, so time's RFC 2822 parser reads
/// the written text back as the same instant, but for an offset that
/// `offset_loses_sign`.
#[verifier::external_body]
fn format_rfc2822(instant: (i64, i32)) -> (r: Option<String>)
    ensures
        opt_view(r) == rfc2822_text(instant),
        !offset_loses_sign(instant.1) ==> (r matches Some(t) ==> rfc2822_instant(t@) == Some(instant)),
{
    let offset = time::UtcOffset::from_whole_seconds(instant.1).ok()?;
    let t = time::OffsetDateTime::from_unix_timestamp(instant.0).ok()?.checked_to_offset(offset)?;
    t.format(&time::format_description::well_known::Rfc2822).ok()
}

impl PubDate {
    /// The date as (Unix seconds, offset seconds).
    pub open spec fn instant(self) -> (i64, i32) {
        (self.unix_timestamp, self.offset_seconds)
    }

    /// Reads an RFC 2822 date-time.
    pub fn parse_rfc2822(s: &str) -> (r: Result<PubDate, DecodeError>)
        ensures
            match r {
                Ok(d) => rfc2822_instant(s@) == Some(d.instant()),
                Err(e) => rfc2822_instant(s@) is None && e is Date,
            },
    {
        match parse_rfc2822(s) {
            Ok(v) => Ok(PubDate { unix_timestamp: v.0, offset_seconds: v.1 }),
            Err(e) => Err(DecodeError::Date(e)),
        }
    }

    /// Writes the date as RFC 2822 text, or nothing where the format cannot
    /// express it. Reading the text back gives the same instant, unless the
    /// offset is negative and under an hour.
    pub fn to_rfc2822(&self) -> (r: Option<String>)
        ensures
            opt_view(r) == rfc2822_text(self.instant()),
            !offset_loses_sign(self.offset_seconds) ==> (r matches Some(t) ==> rfc2822_instant(t@)
                == Some(self.instant())),
    {
        format_rfc2822((self.unix_timestamp, self.offset_seconds))
    }
}

} // verus!
