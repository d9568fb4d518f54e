//! Request targets and the rules for following redirects.
use vstd::prelude::*;
use crate::error::RssError;
use crate::xml::opt_view;

verus! {

/// The most redirects followed for one fetch.
pub const MAX_REDIRECT: usize = 10;

/// A URI split into the components that redirect resolution reads.
#[derive(Debug)]
pub struct UriParts {
    pub scheme: Option<String>,
    pub authority: Option<String>,
    pub path_and_query: Option<String>,
}

/// (scheme, authority, path and query) of a URI.
pub type UriView = (Option<Seq<char>>, Option<Seq<char>>, Option<Seq<char>>);

impl View for UriParts {
    type V = UriView;

    open spec fn view(&self) -> UriView {
        (opt_view(self.scheme), opt_view(self.authority), opt_view(self.path_and_query))
    }
}

/// The components that http reads from `s`, or none where `s` is not a URI.
pub uninterp spec fn uri_split(s: Seq<char>) -> Option<UriView>;

/// The text of the URI that http builds from the components, or none where it
/// refuses them.
pub uninterp spec fn uri_join(p: UriView) -> Option<Seq<char>>;

/// Whether http's `Uri::from_parts` accepts a set of components: with a scheme,
/// an authority and a path are needed; without one, not both of them.
pub open spec fn parts_acceptable(p: UriView) -> bool {
    if p.0 is Some {
        p.1 is Some && p.2 is Some
    } else {
        !(p.1 is Some && p.2 is Some)
    }
}

/// Relies on http's `Uri` parser (`FromStr`) and `Uri::into_parts`; each
/// component is taken as its text.
#[verifier::external_body]
fn split_uri(s: &str) -> (r: Result<UriParts, hyper::http::Error>)
    ensures
        match r {
            Ok(p) => uri_split(s@) == Some(p@),
            Err(_) => uri_split(s@) is None,
        },
{
    let parts = s.parse::<hyper::Uri>().map_err(hyper::http::Error::from)?.into_parts();
    Ok(UriParts {
        scheme: parts.scheme.map(|x| x.to_string()),
        authority: parts.authority.map(|x| x.to_string()),
        path_and_query: parts.path_and_query.map(|x| x.to_string()),
    })
}

/// Relies on http's `Uri::from_parts`, which refuses a scheme without an
/// authority and a path, or an authority and a path without a scheme, and on
/// `Uri`'s `Display` for the text of the result. Each component is read back
/// with its own `FromStr`.
#[verifier::external_body]
fn join_uri(p: &UriParts) -> (r: Option<String>)
    ensures
        opt_view(r) == uri_join(p@),
        r is Some ==> parts_acceptable(p@),
{
    let mut parts = hyper::http::uri::Parts::default();
    parts.scheme = p.scheme.as_deref().map(str::parse).transpose().ok()?;
    parts.authority = p.authority.as_deref().map(str::parse).transpose().ok()?;
    parts.path_and_query = p.path_and_query.as_deref().map(str::parse).transpose().ok()?;
    hyper::Uri::from_parts(parts).ok().map(|u| u.to_string())
}

/// The target of a redirect: the components of `location`, with the scheme and
/// the authority of `origin` where `location` lacks them.
pub open spec fn resolved(origin: UriView, location: UriView) -> UriView {
    (
        if location.0 is Some { location.0 } else { origin.0 },
        if location.1 is Some { location.1 } else { origin.1 },
        location.2,
    )
}

fn copy_opt(o: &Option<String>) -> (r: Option<String>)
    ensures
        opt_view(r) == opt_view(*o),
{
    match o {
        Some(s) => Some(s.clone()),
        None => None,
    }
}

impl UriParts {
    /// Splits a URI into its components.
    pub fn parse(s: &str) -> (r: Result<UriParts, RssError>)
        ensures
            match r {
                Ok(p) => uri_split(s@) == Some(p@),
                Err(e) => uri_split(s@) is None && e is HttpError,
            },
    {
        match split_uri(s) {
            Ok(p) => Ok(p),
            Err(e) => Err(RssError::HttpError(e)),
        }
    }

    /// A copy with the same components.
    pub fn copy(&self) -> (r: UriParts)
        ensures
            r@ == self@,
    {
        UriParts {
            scheme: copy_opt(&self.scheme),
            authority: copy_opt(&self.authority),
            path_and_query: copy_opt(&self.path_and_query),
        }
    }

    /// Resolves a redirect's `location` against this URI, the one requested.
    pub fn resolve(&self, location: &UriParts) -> (r: UriParts)
        ensures
            r@ == resolved(self@, location@),
    {
        UriParts {
            scheme: if location.scheme.is_some() { copy_opt(&location.scheme) } else { copy_opt(&self.scheme) },
            authority: if location.authority.is_some() { copy_opt(&location.authority) } else { copy_opt(&self.authority) },
            path_and_query: copy_opt(&location.path_and_query),
        }
    }

    /// The text of the URI made of these components.
    pub fn to_uri_string(&self) -> (r: Option<String>)
        ensures
            opt_view(r) == uri_join(self@),
            r is Some ==> parts_acceptable(self@),
    {
        join_uri(self)
    }
}

/// A request for a feed: the target URI, as given and split. The components
/// are always those of the text.
#[derive(Debug)]
pub struct RssRequest {
    uri: String,
    parts: UriParts,
}

impl RssRequest {
    /// The target URI as given.
    pub closed spec fn uri_view(&self) -> Seq<char> {
        self.uri@
    }

    /// The components of the target URI.
    pub closed spec fn parts_view(&self) -> UriView {
        self.parts@
    }

    /// The components are those that http reads from the text.
    #[verifier::type_invariant]
    spec fn wf(&self) -> bool {
        uri_split(self.uri@) == Some(self.parts@)
    }

    /// A request for the feed at `s`, which must be a URI.
    pub fn new(s: &str) -> (r: Result<RssRequest, RssError>)
        ensures
            match r {
                Ok(q) => q.uri_view() == s@ && uri_split(s@) == Some(q.parts_view()),
                Err(e) => uri_split(s@) is None && e is HttpError,
            },
    {
        match UriParts::parse(s) {
            Ok(parts) => Ok(RssRequest { uri: s.to_owned(), parts }),
            Err(e) => Err(e),
        }
    }

    /// The target URI as given.
    pub fn uri(&self) -> (r: &str)
        ensures
            r@ == self.uri_view(),
    {
        self.uri.as_str()
    }

    /// The components of the target URI.
    pub fn parts(&self) -> (r: &UriParts)
        ensures
            r@ == self.parts_view(),
            uri_split(self.uri_view()) == Some(r@),
    {
        proof {
            use_type_invariant(self);
        }
        &self.parts
    }
}

/// What to do after a response.
#[derive(Debug)]
pub enum Step {
    /// Read the whole body and decode it.
    ReadBody,
    /// Discard this response and send a GET to the given URI.
    Follow(String),
    /// Stop with this error.
    Fail(RssError),
}

/// Whether a status is a success (2xx).
pub open spec fn is_success(status: u16) -> bool {
    200 <= status <= 299
}

/// Whether a status is a redirection (3xx).
pub open spec fn is_redirection(status: u16) -> bool {
    300 <= status <= 399
}

/// Whether `r` stops with an unexpected response of `status`.
pub open spec fn fails_unexpected(r: Step, status: u16) -> bool {
    r matches Step::Fail(RssError::UnexpectedResponse(c)) && c == status
}

/// The text of the URI that a redirect from `origin` with the `Location` text
/// `location` leads to, or none where it cannot be resolved.
pub open spec fn redirect_target(origin: UriView, location: Option<&str>) -> Option<Seq<char>> {
    match location {
        Some(l) => match uri_split(l@) {
            Some(p) => uri_join(resolved(origin, p)),
            None => None,
        },
        None => None,
    }
}

/// The state of one fetch: the URI requested last and the redirects followed.
#[derive(Debug)]
pub struct Redirects {
    pub current: UriParts,
    pub hops: usize,
}

impl Redirects {
    /// The state before the first GET of `req`.
    pub fn new(req: &RssRequest) -> (r: Redirects)
        ensures
            r.current@ == req.parts_view(),
            uri_split(req.uri_view()) == Some(r.current@),
            r.hops == 0,
    {
        Redirects { current: req.parts().copy(), hops: 0 }
    }

    /// Decides what follows a response with `status` and, if it had one, the
    /// text of its `Location` header. A redirect is followed to `Location`
    /// resolved against the URI just requested, at most `MAX_REDIRECT` times;
    /// a redirect that cannot be resolved counts as an unexpected response.
    pub fn on_response(&mut self, status: u16, location: Option<&str>) -> (r: Step)
        ensures
            is_success(status) ==> r is ReadBody && *final(self) == *old(self),
            !is_success(status) && !is_redirection(status) ==> fails_unexpected(r, status)
                && *final(self) == *old(self),
            is_redirection(status) && old(self).hops >= MAX_REDIRECT ==> (r matches Step::Fail(
                RssError::TooManyRedirects,
            )) && *final(self) == *old(self),
            is_redirection(status) && old(self).hops < MAX_REDIRECT ==> match redirect_target(
                old(self).current@,
                location,
            ) {
                Some(text) => (r matches Step::Follow(u) && u@ == text) && final(self).current@
                    == resolved(old(self).current@, uri_split(location.unwrap()@).unwrap())
                    && final(self).hops == old(self).hops + 1,
                None => fails_unexpected(r, status) && *final(self) == *old(self),
            },
    {
        if 200 <= status && status <= 299 {
            return Step::ReadBody;
        }
        if !(300 <= status && status <= 399) {
            return Step::Fail(RssError::UnexpectedResponse(status));
        }
        if self.hops >= MAX_REDIRECT {
            return Step::Fail(RssError::TooManyRedirects);
        }
        let loc = match location {
            Some(l) => match split_uri(l) {
                Ok(p) => p,
                Err(_) => return Step::Fail(RssError::UnexpectedResponse(status)),
            },
            None => return Step::Fail(RssError::UnexpectedResponse(status)),
        };
        let target = self.current.resolve(&loc);
        match target.to_uri_string() {
            Some(text) => {
                self.current = target;
                self.hops = self.hops + 1;
                Step::Follow(text)
            },
            None => Step::Fail(RssError::UnexpectedResponse(status)),
        }
    }
}

} // verus!
