use rsst::schema::decode_feed;
use rsst::text::{parse_bool, parse_u32};
use rsst::{ContentMedium, PubDate, RssError, RssResponse};

const FEED: &str = r#"<?xml version="1.0"?>
<rss version="2.0" xmlns:media="http://search.yahoo.com/mrss/">
  <channel>
    <title>Example</title>
    <link>http://example.com/</link>
    <description>All the news</description>
    <item>
      <title>First</title>
      <link>http://example.com/1</link>
      <author>ann@example.com</author>
      <guid isPermaLink="false">id-1</guid>
      <pubDate>Tue, 10 Jun 2003 04:00:00 GMT</pubDate>
      <enclosure url="http://example.com/1.mp3" length="1234" mime_type="audio/mpeg"/>
      <media:content url="http://example.com/1.png" medium="image"/>
      <media:content url="http://example.com/1.webm" mime_type="video/webm"/>
    </item>
    <item>
      <title>Second</title>
    </item>
    <item>
      <title>Third</title>
      <content>Body</content>
    </item>
  </channel>
</rss>"#;

fn feed_with_item(item: &str) -> String {
    format!(
        "<rss xmlns:media=\"http://search.yahoo.com/mrss/\"><channel><title>T</title><link>L</link><item>{}</item></channel></rss>",
        item
    )
}

#[test]
fn feed_decodes_items_in_document_order() {
    let resp = RssResponse::from_string(FEED.to_string()).unwrap();
    let ch = &resp.borrow_feed().channel;
    assert_eq!(ch.title, "Example");
    assert_eq!(ch.link, "http://example.com/");
    assert_eq!(ch.description.as_deref(), Some("All the news"));
    assert_eq!(ch.language, None);
    let titles: Vec<&str> = ch.items.iter().map(|i| i.title.as_deref().unwrap()).collect();
    assert_eq!(titles, vec!["First", "Second", "Third"]);
    let first = &ch.items[0];
    assert_eq!(first.author.as_deref(), Some("ann@example.com"));
    let guid = first.guid.as_ref().unwrap();
    assert_eq!(guid.value, "id-1");
    assert!(!guid.is_perma_link);
    let enc = first.enclosure.as_ref().unwrap();
    assert_eq!(enc.url, "http://example.com/1.mp3");
    assert_eq!(enc.length, 1234);
    assert_eq!(enc.mime_type, "audio/mpeg");
    assert_eq!(first.pub_date.unwrap().unix_timestamp, 1055217600);
    assert_eq!(first.media.len(), 2);
    assert_eq!(first.media[0].url.as_deref(), Some("http://example.com/1.png"));
    assert_eq!(first.media[0].medium, Some(ContentMedium::Image));
    assert_eq!(first.media[1].mime_type.as_deref(), Some("video/webm"));
    assert_eq!(first.media[1].medium, None);
    assert_eq!(first.content, None);
    let second = &ch.items[1];
    assert_eq!(second.link, None);
    assert!(second.guid.is_none() && second.enclosure.is_none() && second.pub_date.is_none());
    assert!(second.media.is_empty());
    assert_eq!(ch.items[2].content.as_deref(), Some("Body"));
    assert!(ch.items[2].media.is_empty());
    assert_eq!(resp.text(), FEED);
}

#[test]
fn channel_without_items_has_empty_sequence() {
    let resp = RssResponse::from_string("<rss><channel><title>T</title><link>L</link></channel></rss>".to_string()).unwrap();
    assert!(resp.borrow_feed().channel.items.is_empty());
}

#[test]
fn pub_date_round_trip_keeps_instant() {
    let d = PubDate::parse_rfc2822("Tue, 10 Jun 2003 04:00:00 +0200").unwrap();
    assert_eq!(d.unix_timestamp, 1055210400);
    assert_eq!(d.offset_seconds, 7200);
    let text = d.to_rfc2822().unwrap();
    assert_eq!(text, "Tue, 10 Jun 2003 04:00:00 +0200");
    let again = PubDate::parse_rfc2822(&text).unwrap();
    assert_eq!(again, d);
}

#[test]
fn pub_date_rejects_other_formats() {
    assert!(PubDate::parse_rfc2822("2003-06-10T04:00:00Z").is_err());
    let r = RssResponse::from_string(feed_with_item("<pubDate>yesterday</pubDate>"));
    assert!(matches!(r, Err(RssError::XmlDecode(_))));
}

#[test]
fn guid_without_perma_link_fails_decode() {
    let r = RssResponse::from_string(feed_with_item("<guid>abc</guid>"));
    assert!(matches!(r, Err(RssError::XmlDecode(_))));
    let ok = RssResponse::from_string(feed_with_item("<guid isPermaLink=\"true\">abc</guid>")).unwrap();
    assert!(ok.borrow_feed().channel.items[0].guid.as_ref().unwrap().is_perma_link);
}

#[test]
fn media_medium_is_case_sensitive() {
    let bad = RssResponse::from_string(feed_with_item("<media:content medium=\"IMAGE\"/>"));
    assert!(matches!(bad, Err(RssError::XmlDecode(_))));
    let good = RssResponse::from_string(feed_with_item("<media:content medium=\"image\"/>")).unwrap();
    assert_eq!(good.borrow_feed().channel.items[0].media[0].medium, Some(ContentMedium::Image));
    assert_eq!(ContentMedium::parse("executable"), Some(ContentMedium::Executable));
    assert_eq!(ContentMedium::parse("Audio"), None);
}

#[test]
fn invalid_utf8_is_encoding_error() {
    let r = RssResponse::from_bytes(vec![b'<', 0xff, 0xfe, b'>']);
    assert!(matches!(r, Err(RssError::EncodingError(_))));
    let ok = RssResponse::from_bytes(b"<rss><channel><title>T</title><link>L</link></channel></rss>".to_vec()).unwrap();
    assert_eq!(ok.borrow_feed().channel.title, "T");
}

#[test]
fn malformed_xml_is_parse_error() {
    let r = RssResponse::from_string("<rss><channel>".to_string());
    assert!(matches!(r, Err(RssError::XmlParse(_))));
}

#[test]
fn missing_required_fields_are_decode_errors() {
    let r = RssResponse::from_string("<rss><channel><link>L</link></channel></rss>".to_string());
    assert!(matches!(r, Err(RssError::XmlDecode(_))));
    let r = RssResponse::from_string("<feed><channel><title>T</title><link>L</link></channel></feed>".to_string());
    assert!(matches!(r, Err(RssError::XmlDecode(_))));
    let r = RssResponse::from_string(feed_with_item("<enclosure url=\"u\" length=\"-1\" mime_type=\"m\"/>"));
    assert!(matches!(r, Err(RssError::XmlDecode(_))));
    let r = RssResponse::from_string(feed_with_item("<enclosure url=\"u\" length=\"1\"/>"));
    assert!(matches!(r, Err(RssError::XmlDecode(_))));
}

#[test]
fn empty_optional_element_is_present_and_empty() {
    let r = RssResponse::from_string(feed_with_item("<title/>")).unwrap();
    assert_eq!(r.borrow_feed().channel.items[0].title.as_deref(), Some(""));
}

#[test]
fn decode_feed_reads_parsed_nodes() {
    let resp = RssResponse::from_string(FEED.to_string()).unwrap();
    let again = RssResponse::from_string(resp.text().to_string()).unwrap();
    assert_eq!(again.borrow_feed().channel.items.len(), 3);
    let doc = rsst::xml::XmlDocument { nodes: Vec::new() };
    assert!(decode_feed(&doc).is_err());
}

#[test]
fn scalar_text_parsing() {
    assert_eq!(parse_u32("0"), Some(0));
    assert_eq!(parse_u32("+12"), Some(12));
    assert_eq!(parse_u32("4294967295"), Some(u32::MAX));
    assert_eq!(parse_u32("4294967296"), None);
    assert_eq!(parse_u32(""), None);
    assert_eq!(parse_u32("+"), None);
    assert_eq!(parse_u32("1a"), None);
    assert_eq!(parse_bool("true"), Some(true));
    assert_eq!(parse_bool("false"), Some(false));
    assert_eq!(parse_bool("True"), None);
}

#[test]
fn pub_date_round_trip_except_small_negative_offset() {
    let d = PubDate::parse_rfc2822("Tue, 10 Jun 2003 04:00:00 -0500").unwrap();
    let again = PubDate::parse_rfc2822(&d.to_rfc2822().unwrap()).unwrap();
    assert_eq!(again, d);
    let small = PubDate { unix_timestamp: 1055217600, offset_seconds: -1800 };
    let text = small.to_rfc2822().unwrap();
    assert_eq!(text, "Tue, 10 Jun 2003 03:30:00 -0030");
    let back = PubDate::parse_rfc2822(&text).unwrap();
    assert_eq!(back.offset_seconds, 1800);
    let seconds = PubDate { unix_timestamp: 0, offset_seconds: 61 };
    assert_eq!(seconds.to_rfc2822(), None);
}

#[test]
fn multibyte_utf8_body_decodes() {
    let body = "<rss><channel><title>Caf\u{e9} \u{2603}</title><link>L</link></channel></rss>";
    let r = RssResponse::from_bytes(body.as_bytes().to_vec()).unwrap();
    assert_eq!(r.borrow_feed().channel.title, "Caf\u{e9} \u{2603}");
}

#[test]
fn error_kind_names() {
    assert_eq!(RssError::TooManyRedirects.kind_name(), "too many redirects");
    assert_eq!(RssError::UnexpectedResponse(404).kind_name(), "unexpected response code");
    let parse = RssResponse::from_string("<".to_string()).unwrap_err();
    assert_eq!(parse.kind_name(), "xml parse error");
    let enc = RssResponse::from_bytes(vec![0xff]).unwrap_err();
    assert_eq!(enc.kind_name(), "encoding error");
    let dec = RssResponse::from_string("<rss/>".to_string()).unwrap_err();
    assert_eq!(dec.kind_name(), "xml decode error");
}
