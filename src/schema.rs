//! The feed schema: which elements and attributes fill which fields.
//!
//! Channel and item fields come from child elements in no namespace, matched by
//! local name; the first such child counts. Guid, enclosure and media fields come
//! from attributes, a guid's value from its text. Media references are the
//! `content` children of an item that carry a namespace.
use vstd::prelude::*;
use crate::error::DecodeError;
use crate::feed::{
    medium_of, rfc2822_instant, Channel, ContentMedium, Enclosure, Feed, Guid, Item,
    MediaContent, PubDate,
};
use crate::text::{parse_bool, parse_u32, spec_parse_bool, spec_parse_u32};
use crate::xml::{
    attribute, attribute_of, child_text, first_child, named_children, node_text, opt_view,
    text_of, XmlDocument, XmlNode,
};

verus! {

/// Whether guid element `g` decodes.
pub open spec fn guid_ok(doc: Seq<XmlNode>, g: int) -> bool {
    match attribute_of(doc[g], "isPermaLink"@) {
        Some(v) => spec_parse_bool(v) is Some,
        None => false,
    }
}

/// Whether `v` is what guid element `g` decodes to.
pub open spec fn guid_is(doc: Seq<XmlNode>, g: int, v: Guid) -> bool {
    &&& v.value@ == text_of(doc[g])
    &&& spec_parse_bool(attribute_of(doc[g], "isPermaLink"@).unwrap()) == Some(v.is_perma_link)
}

/// Whether enclosure element `e` decodes.
pub open spec fn enclosure_ok(doc: Seq<XmlNode>, e: int) -> bool {
    &&& attribute_of(doc[e], "url"@) is Some
    &&& attribute_of(doc[e], "length"@) matches Some(l) && spec_parse_u32(l) is Some
    &&& attribute_of(doc[e], "mime_type"@) is Some
}

/// Whether `v` is what enclosure element `e` decodes to.
pub open spec fn enclosure_is(doc: Seq<XmlNode>, e: int, v: Enclosure) -> bool {
    &&& attribute_of(doc[e], "url"@) == Some(v.url@)
    &&& spec_parse_u32(attribute_of(doc[e], "length"@).unwrap()) == Some(v.length)
    &&& attribute_of(doc[e], "mime_type"@) == Some(v.mime_type@)
}

/// Whether media element `m` decodes.
pub open spec fn media_ok(doc: Seq<XmlNode>, m: int) -> bool {
    attribute_of(doc[m], "medium"@) matches Some(w) ==> medium_of(w) is Some
}

/// Whether `v` is what media element `m` decodes to.
pub open spec fn media_is(doc: Seq<XmlNode>, m: int, v: MediaContent) -> bool {
    &&& opt_view(v.url) == attribute_of(doc[m], "url"@)
    &&& opt_view(v.mime_type) == attribute_of(doc[m], "mime_type"@)
    &&& v.medium == match attribute_of(doc[m], "medium"@) {
        Some(w) => medium_of(w),
        None => None,
    }
}

/// Whether item element `i` decodes.
pub open spec fn item_ok(doc: Seq<XmlNode>, i: int) -> bool {
    &&& first_child(doc, i, "enclosure"@) matches Some(e) ==> enclosure_ok(doc, e as int)
    &&& first_child(doc, i, "guid"@) matches Some(g) ==> guid_ok(doc, g as int)
    &&& child_text(doc, i, "pubDate"@) matches Some(t) ==> rfc2822_instant(t) is Some
    &&& forall|k: int|
        0 <= k < named_children(doc, i, "content"@, true).len() ==> media_ok(
            doc,
            #[trigger] named_children(doc, i, "content"@, true)[k] as int,
        )
}

/// Whether `v` is what item element `i` decodes to.
pub open spec fn item_is(doc: Seq<XmlNode>, i: int, v: Item) -> bool {
    let media = named_children(doc, i, "content"@, true);
    &&& opt_view(v.title) == child_text(doc, i, "title"@)
    &&& opt_view(v.link) == child_text(doc, i, "link"@)
    &&& opt_view(v.description) == child_text(doc, i, "description"@)
    &&& opt_view(v.author) == child_text(doc, i, "author"@)
    &&& opt_view(v.content) == child_text(doc, i, "content"@)
    &&& match first_child(doc, i, "enclosure"@) {
        Some(e) => v.enclosure matches Some(x) && enclosure_is(doc, e as int, x),
        None => v.enclosure is None,
    }
    &&& match first_child(doc, i, "guid"@) {
        Some(g) => v.guid matches Some(x) && guid_is(doc, g as int, x),
        None => v.guid is None,
    }
    &&& match child_text(doc, i, "pubDate"@) {
        Some(t) => v.pub_date matches Some(d) && rfc2822_instant(t) == Some(d.instant()),
        None => v.pub_date is None,
    }
    &&& v.media@.len() == media.len()
    &&& forall|k: int| 0 <= k < media.len() ==> media_is(doc, media[k] as int, #[trigger] v.media@[k])
}

/// Whether channel element `c` decodes.
pub open spec fn channel_ok(doc: Seq<XmlNode>, c: int) -> bool {
    &&& child_text(doc, c, "title"@) is Some
    &&& child_text(doc, c, "link"@) is Some
    &&& forall|k: int|
        0 <= k < named_children(doc, c, "item"@, false).len() ==> item_ok(
            doc,
            #[trigger] named_children(doc, c, "item"@, false)[k] as int,
        )
}

/// Whether `v` is what channel element `c` decodes to: its items are those of
/// the `item` children, one for one and in document order.
pub open spec fn channel_is(doc: Seq<XmlNode>, c: int, v: Channel) -> bool {
    let items = named_children(doc, c, "item"@, false);
    &&& child_text(doc, c, "title"@) == Some(v.title@)
    &&& child_text(doc, c, "link"@) == Some(v.link@)
    &&& opt_view(v.description) == child_text(doc, c, "description"@)
    &&& opt_view(v.language) == child_text(doc, c, "language"@)
    &&& v.items@.len() == items.len()
    &&& forall|k: int| 0 <= k < items.len() ==> item_is(doc, items[k] as int, #[trigger] v.items@[k])
}

/// The `rss` element, the first element of that name under the document root.
pub open spec fn rss_element(doc: Seq<XmlNode>) -> Option<usize> {
    first_child(doc, 0, "rss"@)
}

/// The `channel` element of the `rss` element.
pub open spec fn channel_element(doc: Seq<XmlNode>) -> Option<usize> {
    match rss_element(doc) {
        Some(r) => first_child(doc, r as int, "channel"@),
        None => None,
    }
}

/// Whether a document fits the feed schema.
pub open spec fn feed_ok(doc: Seq<XmlNode>) -> bool {
    channel_element(doc) matches Some(c) && channel_ok(doc, c as int)
}

/// Whether `v` is what a document that fits the schema decodes to.
pub open spec fn feed_is(doc: Seq<XmlNode>, v: Feed) -> bool {
    channel_element(doc) matches Some(c) && channel_is(doc, c as int, v.channel)
}

/// Decodes guid element `g`.
pub fn decode_guid(doc: &XmlDocument, g: usize) -> (r: Result<Guid, DecodeError>)
    requires
        g < doc.nodes@.len(),
    ensures
        r is Ok <==> guid_ok(doc.nodes@, g as int),
        r matches Ok(v) ==> guid_is(doc.nodes@, g as int, v),
{
    let n = &doc.nodes[g];
    let flag = match attribute(n, "isPermaLink") {
        Some(v) => v,
        None => return Err(DecodeError::Missing(String::from_str("isPermaLink"))),
    };
    match parse_bool(flag.as_str()) {
        Some(b) => Ok(Guid { value: node_text(n), is_perma_link: b }),
        None => Err(DecodeError::Invalid(String::from_str("isPermaLink"))),
    }
}

/// Decodes enclosure element `e`.
pub fn decode_enclosure(doc: &XmlDocument, e: usize) -> (r: Result<Enclosure, DecodeError>)
    requires
        e < doc.nodes@.len(),
    ensures
        r is Ok <==> enclosure_ok(doc.nodes@, e as int),
        r matches Ok(v) ==> enclosure_is(doc.nodes@, e as int, v),
{
    let n = &doc.nodes[e];
    let url = match attribute(n, "url") {
        Some(v) => v,
        None => return Err(DecodeError::Missing(String::from_str("url"))),
    };
    let length_text = match attribute(n, "length") {
        Some(v) => v,
        None => return Err(DecodeError::Missing(String::from_str("length"))),
    };
    let length = match parse_u32(length_text.as_str()) {
        Some(l) => l,
        None => return Err(DecodeError::Invalid(String::from_str("length"))),
    };
    let mime_type = match attribute(n, "mime_type") {
        Some(v) => v,
        None => return Err(DecodeError::Missing(String::from_str("mime_type"))),
    };
    Ok(Enclosure { url, length, mime_type })
}

/// Decodes media element `m`.
pub fn decode_media(doc: &XmlDocument, m: usize) -> (r: Result<MediaContent, DecodeError>)
    requires
        m < doc.nodes@.len(),
    ensures
        r is Ok <==> media_ok(doc.nodes@, m as int),
        r matches Ok(v) ==> media_is(doc.nodes@, m as int, v),
{
    let n = &doc.nodes[m];
    let medium = match attribute(n, "medium") {
        Some(w) => match ContentMedium::parse(w.as_str()) {
            Some(c) => Some(c),
            None => return Err(DecodeError::Invalid(String::from_str("medium"))),
        },
        None => None,
    };
    Ok(MediaContent { url: attribute(n, "url"), mime_type: attribute(n, "mime_type"), medium })
}

/// Decodes item element `i`.
pub fn decode_item(doc: &XmlDocument, i: usize) -> (r: Result<Item, DecodeError>)
    requires
        i < doc.nodes@.len(),
    ensures
        r is Ok <==> item_ok(doc.nodes@, i as int),
        r matches Ok(v) ==> item_is(doc.nodes@, i as int, v),
{
    let enclosure = match doc.first_child(i, "enclosure") {
        Some(e) => match decode_enclosure(doc, e) {
            Ok(v) => Some(v),
            Err(err) => return Err(err),
        },
        None => None,
    };
    let guid = match doc.first_child(i, "guid") {
        Some(g) => match decode_guid(doc, g) {
            Ok(v) => Some(v),
            Err(err) => return Err(err),
        },
        None => None,
    };
    let pub_date = match doc.child_text(i, "pubDate") {
        Some(t) => match PubDate::parse_rfc2822(t.as_str()) {
            Ok(d) => Some(d),
            Err(err) => return Err(err),
        },
        None => None,
    };
    let found = doc.children_named(i, "content", true);
    let total = doc.nodes.len();
    proof {
        crate::xml::lemma_named_children_ordered(doc.nodes@, i as int, "content"@, true, total as int);
    }
    let mut media: Vec<MediaContent> = Vec::new();
    let mut k: usize = 0;
    while k < found.len()
        invariant
            found@ == named_children(doc.nodes@, i as int, "content"@, true),
            forall|a: int| 0 <= a < found@.len() ==> #[trigger] found@[a] < doc.nodes@.len(),
            k <= found@.len(),
            media@.len() == k,
            forall|a: int| 0 <= a < k ==> media_ok(doc.nodes@, #[trigger] found@[a] as int),
            forall|a: int| 0 <= a < k ==> media_is(doc.nodes@, found@[a] as int, #[trigger] media@[a]),
        decreases found@.len() - k,
    {
        match decode_media(doc, found[k]) {
            Ok(m) => media.push(m),
            Err(err) => return Err(err),
        }
        k = k + 1;
    }
    Ok(Item {
        title: doc.child_text(i, "title"),
        link: doc.child_text(i, "link"),
        description: doc.child_text(i, "description"),
        author: doc.child_text(i, "author"),
        enclosure,
        guid,
        pub_date,
        content: doc.child_text(i, "content"),
        media,
    })
}

/// Decodes channel element `c`; its items keep document order.
pub fn decode_channel(doc: &XmlDocument, c: usize) -> (r: Result<Channel, DecodeError>)
    requires
        c < doc.nodes@.len(),
    ensures
        r is Ok <==> channel_ok(doc.nodes@, c as int),
        r matches Ok(v) ==> channel_is(doc.nodes@, c as int, v),
{
    let title = match doc.child_text(c, "title") {
        Some(t) => t,
        None => return Err(DecodeError::Missing(String::from_str("title"))),
    };
    let link = match doc.child_text(c, "link") {
        Some(t) => t,
        None => return Err(DecodeError::Missing(String::from_str("link"))),
    };
    let found = doc.children_named(c, "item", false);
    let total = doc.nodes.len();
    proof {
        crate::xml::lemma_named_children_ordered(doc.nodes@, c as int, "item"@, false, total as int);
    }
    let mut items: Vec<Item> = Vec::new();
    let mut k: usize = 0;
    while k < found.len()
        invariant
            found@ == named_children(doc.nodes@, c as int, "item"@, false),
            forall|a: int| 0 <= a < found@.len() ==> #[trigger] found@[a] < doc.nodes@.len(),
            k <= found@.len(),
            items@.len() == k,
            forall|a: int| 0 <= a < k ==> item_ok(doc.nodes@, #[trigger] found@[a] as int),
            forall|a: int| 0 <= a < k ==> item_is(doc.nodes@, found@[a] as int, #[trigger] items@[a]),
        decreases found@.len() - k,
    {
        match decode_item(doc, found[k]) {
            Ok(m) => items.push(m),
            Err(err) => return Err(err),
        }
        k = k + 1;
    }
    Ok(Channel {
        title,
        link,
        description: doc.child_text(c, "description"),
        language: doc.child_text(c, "language"),
        items,
    })
}

/// Decodes a document: the `channel` element of its `rss` root element.
pub fn decode_feed(doc: &XmlDocument) -> (r: Result<Feed, DecodeError>)
    ensures
        r is Ok <==> feed_ok(doc.nodes@),
        r matches Ok(v) ==> feed_is(doc.nodes@, v),
{
    let rss = match doc.first_child(0, "rss") {
        Some(j) => j,
        None => return Err(DecodeError::Missing(String::from_str("rss"))),
    };
    let channel = match doc.first_child(rss, "channel") {
        Some(j) => j,
        None => return Err(DecodeError::Missing(String::from_str("channel"))),
    };
    match decode_channel(doc, channel) {
        Ok(ch) => Ok(Feed { channel: ch }),
        Err(err) => Err(err),
    }
}

/// A document that fits the schema decodes to items that stand for its `item`
/// elements one for one, in the order in which those elements appear.
pub proof fn lemma_items_in_document_order(doc: Seq<XmlNode>, f: Feed)
    requires
        doc.len() <= usize::MAX,
        feed_is(doc, f),
    ensures
        ({
            let c = channel_element(doc).unwrap() as int;
            let idx = named_children(doc, c, "item"@, false);
            &&& f.channel.items@.len() == idx.len()
            &&& forall|a: int, b: int| 0 <= a < b < idx.len() ==> idx[a] < idx[b]
            &&& forall|k: int| 0 <= k < idx.len() ==> item_is(doc, idx[k] as int, #[trigger] f.channel.items@[k])
        }),
{
    let c = channel_element(doc).unwrap() as int;
    crate::xml::lemma_named_children_ordered(doc, c, "item"@, false, doc.len() as int);
}

} // verus!
