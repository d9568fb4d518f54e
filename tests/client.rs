use rsst::redirect::MAX_REDIRECT;
use rsst::{Redirects, RssError, RssRequest, Step, UriParts};

fn start(uri: &str) -> Redirects {
    Redirects::new(&RssRequest::new(uri).unwrap())
}

#[test]
fn relative_location_inherits_scheme_and_authority() {
    let mut r = start("http://example.com/old");
    match r.on_response(301, Some("/new")) {
        Step::Follow(u) => assert_eq!(u, "http://example.com/new"),
        other => panic!("unexpected step {:?}", other),
    }
    assert_eq!(r.hops, 1);
    match r.on_response(200, None) {
        Step::ReadBody => {}
        other => panic!("unexpected step {:?}", other),
    }
}

#[test]
fn absolute_location_is_taken_whole() {
    let mut r = start("http://example.com/old");
    match r.on_response(302, Some("https://other.org/feed?x=1")) {
        Step::Follow(u) => assert_eq!(u, "https://other.org/feed?x=1"),
        other => panic!("unexpected step {:?}", other),
    }
    match r.on_response(307, Some("/next")) {
        Step::Follow(u) => assert_eq!(u, "https://other.org/next"),
        other => panic!("unexpected step {:?}", other),
    }
}

#[test]
fn eleventh_redirect_is_too_many() {
    let mut r = start("http://example.com/a");
    for _ in 0..10 {
        assert!(matches!(r.on_response(301, Some("/a")), Step::Follow(_)));
    }
    assert_eq!(r.hops, MAX_REDIRECT);
    assert!(matches!(r.on_response(301, Some("/a")), Step::Fail(RssError::TooManyRedirects)));
}

#[test]
fn missing_or_bad_location_is_unexpected_response() {
    let mut r = start("http://example.com/a");
    assert!(matches!(r.on_response(302, None), Step::Fail(RssError::UnexpectedResponse(302))));
    assert!(matches!(r.on_response(303, Some("http://[::1")), Step::Fail(RssError::UnexpectedResponse(303))));
    assert_eq!(r.hops, 0);
}

#[test]
fn not_found_is_unexpected_response() {
    let mut r = start("http://example.com/a");
    assert!(matches!(r.on_response(404, None), Step::Fail(RssError::UnexpectedResponse(404))));
    assert!(matches!(r.on_response(500, None), Step::Fail(RssError::UnexpectedResponse(500))));
    assert!(matches!(r.on_response(199, None), Step::Fail(RssError::UnexpectedResponse(199))));
    assert!(matches!(r.on_response(299, None), Step::ReadBody));
}

#[test]
fn request_needs_a_uri() {
    assert!(matches!(RssRequest::new("http://exa mple.com"), Err(RssError::HttpError(_))));
    let q = RssRequest::new("http://example.com:8080/feed?a=b").unwrap();
    assert_eq!(q.uri(), "http://example.com:8080/feed?a=b");
    assert_eq!(q.parts().scheme.as_deref(), Some("http"));
    assert_eq!(q.parts().authority.as_deref(), Some("example.com:8080"));
    assert_eq!(q.parts().path_and_query.as_deref(), Some("/feed?a=b"));
}

#[test]
fn resolve_and_join_uri_parts() {
    let origin = UriParts::parse("https://example.com/x").unwrap();
    let loc = UriParts::parse("/y?z").unwrap();
    assert_eq!(loc.scheme, None);
    let t = origin.resolve(&loc);
    assert_eq!(t.to_uri_string().as_deref(), Some("https://example.com/y?z"));
    let lone = UriParts { scheme: Some("http".to_string()), authority: None, path_and_query: None };
    assert_eq!(lone.to_uri_string(), None);
    assert_eq!(RssError::TooManyRedirects.kind_name(), "too many redirects");
}
