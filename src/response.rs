use vstd::prelude::*;

use crate::archive::{
    EntryView, SiteEntry, SiteError, decodes, find_file, first_match, found_is, listing, no_match,
    unread,
};
use crate::route::{Route, is_absolute, is_root, lookup_key, route};

verus! {

/// Where a request for `/` is redirected.
pub const SITE_ROOT: &'static str = "/doc/fastly/index.html";

pub const STATUS_OK: u16 = 200;

pub const STATUS_PERMANENT_REDIRECT: u16 = 308;

pub const STATUS_NOT_FOUND: u16 = 404;

pub const STATUS_METHOD_NOT_ALLOWED: u16 = 405;

/// The status line and headers of a response.
pub struct Head {
    pub status: u16,
    /// The `Location` header.
    pub location: Option<String>,
    /// The `Content-Type` header.
    pub content_type: Option<String>,
    /// The `Content-Length` header; where it is set it is authoritative, and
    /// the body is not sent chunked.
    pub content_length: Option<u64>,
}

/// A head as plain values.
pub struct HeadModel {
    pub status: u16,
    pub location: Option<Seq<char>>,
    pub content_type: Option<Seq<char>>,
    pub content_length: Option<u64>,
}

pub open spec fn opt_view(s: Option<String>) -> Option<Seq<char>> {
    match s {
        Some(t) => Some(t@),
        None => None,
    }
}

impl View for Head {
    type V = HeadModel;

    open spec fn view(&self) -> HeadModel {
        HeadModel {
            status: self.status,
            location: opt_view(self.location),
            content_type: opt_view(self.content_type),
            content_length: self.content_length,
        }
    }
}

/// A response: its head, and the archive entry whose content is its body
/// (`None` for an empty body).
pub struct Reply {
    pub head: Head,
    pub body: Option<SiteEntry>,
}

/// A head with only a status.
pub open spec fn bare(status: u16) -> HeadModel {
    HeadModel { status, location: None, content_type: None, content_length: None }
}

/// The head of a redirect to the canonical document.
pub open spec fn redirect() -> HeadModel {
    HeadModel {
        status: STATUS_PERMANENT_REDIRECT,
        location: Some(SITE_ROOT@),
        content_type: None,
        content_length: None,
    }
}

/// The head of a file of the given type and size.
pub open spec fn file_model(content_type: Seq<char>, size: u64) -> HeadModel {
    HeadModel {
        status: STATUS_OK,
        location: None,
        content_type: Some(content_type),
        content_length: Some(size),
    }
}

/// The media type guessed from a path's extension.
pub uninterp spec fn mime_of(path: Seq<char>) -> Seq<char>;

/// Relies on mime_guess's `from_path` and `MimeGuess::first_or_octet_stream`:
/// the first type known for the path's extension, else
/// `application/octet-stream`; it depends on the path alone.
#[verifier::external_body]
fn guess_content_type(path: &str) -> (r: String)
    ensures
        r@ == mime_of(path@),
{
    mime_guess::from_path(path).first_or_octet_stream().as_ref().to_string()
}

/// A head with only a status.
pub fn bare_head(status: u16) -> (h: Head)
    ensures
        h@ == bare(status),
{
    Head { status, location: None, content_type: None, content_length: None }
}

/// The head that redirects to the canonical document.
pub fn redirect_head() -> (h: Head)
    ensures
        h@ == redirect(),
{
    Head {
        status: STATUS_PERMANENT_REDIRECT,
        location: Some(SITE_ROOT.to_owned()),
        content_type: None,
        content_length: None,
    }
}

/// The head of a file, from its media type and its declared size.
pub fn file_head(content_type: String, size: u64) -> (h: Head)
    ensures
        h@ == file_model(content_type@, size),
{
    Head { status: STATUS_OK, location: None, content_type: Some(content_type), content_length: Some(size) }
}

/// A response as plain values: its head, and the bytes its body yields
/// (`None` for an empty body).
pub struct ReplyModel {
    pub head: HeadModel,
    pub body: Option<Seq<u8>>,
}

/// A response with only a status.
pub open spec fn plain(status: u16) -> ReplyModel {
    ReplyModel { head: bare(status), body: None }
}

/// The response that serves the entry `e` at the lookup key `key`.
pub open spec fn served(key: Seq<char>, e: EntryView) -> ReplyModel {
    ReplyModel { head: file_model(mime_of(key), e.0.2), body: Some(e.1) }
}

/// What the response to a request is, given the archive `site`: a refusal
/// for a method other than GET, a redirect for `/`, else the first regular
/// file stored at the path without its leading `/`, or 404 where there is
/// none and the archive decodes; a failure where there is none and the
/// archive does not decode.
pub open spec fn answers(is_get: bool, path: Seq<char>, site: Seq<u8>, r: Result<ReplyModel, SiteError>) -> bool {
    if !is_get {
        r == Ok::<ReplyModel, SiteError>(plain(STATUS_METHOD_NOT_ALLOWED))
    } else if is_root(path) {
        r == Ok::<ReplyModel, SiteError>(ReplyModel { head: redirect(), body: None })
    } else {
        let key = lookup_key(path);
        let l = listing(site);
        match r {
            Ok(m) => if m.head.status == STATUS_OK {
                exists|i: int| first_match(l, key, i) && m == served(key, #[trigger] l[i])
            } else {
                m == plain(STATUS_NOT_FOUND) && no_match(l, key) && decodes(site)
            },
            Err(_) => no_match(l, key) && !decodes(site),
        }
    }
}

pub open spec fn body_view(b: Option<SiteEntry>) -> Option<Seq<u8>> {
    match b {
        Some(e) => Some(unread(e)),
        None => None,
    }
}

/// The outcome of a response as plain values.
pub open spec fn outcome(r: Result<Reply, SiteError>) -> Result<ReplyModel, SiteError> {
    match r {
        Ok(reply) => Ok(ReplyModel { head: reply.head@, body: body_view(reply.body) }),
        Err(e) => Err(e),
    }
}

/// Answers a request for `path` with method GET (`is_get`) or another,
/// from the archive `site`. The body is set exactly where the status is 200.
pub fn respond(is_get: bool, path: &str, site: &'static [u8]) -> (r: Result<Reply, SiteError>)
    requires
        is_get ==> is_absolute(path@),
    ensures
        answers(is_get, path@, site@, outcome(r)),
        r matches Ok(reply) ==> (reply.body is Some <==> reply.head.status == STATUS_OK),
{
    match route(is_get, path) {
        Route::NotAllowed => Ok(Reply { head: bare_head(STATUS_METHOD_NOT_ALLOWED), body: None }),
        Route::Redirect => Ok(Reply { head: redirect_head(), body: None }),
        Route::Lookup(key) => match find_file(site, key.as_str()) {
            Ok(Some(found)) => {
                let content_type = guess_content_type(key.as_str());
                let r = Reply { head: file_head(content_type, found.size), body: Some(found.entry) };
                proof {
                    let l = listing(site@);
                    let i = choose|i: int| first_match(l, key@, i) && #[trigger] found_is(l, i, found);
                    assert(outcome(Ok(r)) matches Ok(m) && m == served(key@, l[i]));
                }
                Ok(r)
            },
            Ok(None) => Ok(Reply { head: bare_head(STATUS_NOT_FOUND), body: None }),
            Err(e) => Err(e),
        },
    }
}

} // verus!
