use vstd::prelude::*;
use vstd::string::*;
use vstd::utf8::*;

use crate::request::Web4Request;
use crate::response::{typed_body, ResponseModel, Web4Response};

verus! {

/// The one route besides the default page.
pub const ROBOTS_PATH: &'static str = "robots.txt";

/// The content type of the robots file.
pub const ROBOTS_TYPE: &'static str = "text/plain";

/// The robots file: every agent may crawl everything.
pub const ROBOTS_BODY: &'static str = "User-agent: *\nDisallow:";

/// The content type of the default page.
pub const PAGE_TYPE: &'static str = "text/html";

/// A path with one leading `/` taken off, if it has one.
pub open spec fn strip_leading_slash(path: Seq<char>) -> Seq<char> {
    if path.len() > 0 && path[0] == '/' {
        path.drop_first()
    } else {
        path
    }
}

/// The response to a request for `path`, where `page` is the default document.
pub open spec fn response_for(path: Seq<char>, page: Seq<u8>) -> ResponseModel {
    if strip_leading_slash(path) == ROBOTS_PATH@ {
        typed_body(ROBOTS_TYPE@, encode_utf8(ROBOTS_BODY@))
    } else {
        typed_body(PAGE_TYPE@, page)
    }
}

/// The request handler. It holds the default document, fixed when the handler
/// is made and never changed afterwards.
pub struct Contract {
    page: Vec<u8>,
}

impl Contract {
    /// The default document that the handler serves.
    pub closed spec fn page(&self) -> Seq<u8> {
        self.page@
    }

    /// A handler that serves `page` as its default document.
    pub fn new(page: Vec<u8>) -> (r: Contract)
        ensures
            r.page() == page@,
    {
        Contract { page }
    }

    /// Answers `request`. Only the path is read: `robots.txt` (with or without
    /// one leading `/`) gets the robots file as plain text, and every other path
    /// gets the default document as HTML. It never fails.
    pub fn web4_get(&self, request: Web4Request) -> (r: Web4Response)
        ensures
            r@ == response_for(request.path@, self.page()),
    {
        let path = strip_slash(request.path.as_str());
        if same_text(path, ROBOTS_PATH) {
            Web4Response {
                content_type: Some(String::from_str(ROBOTS_TYPE)),
                status: None,
                body: Some(ROBOTS_BODY.as_bytes_vec()),
                body_url: None,
                preload_urls: None,
            }
        } else {
            Web4Response {
                content_type: Some(String::from_str(PAGE_TYPE)),
                status: None,
                body: Some(copy_bytes(&self.page)),
                body_url: None,
                preload_urls: None,
            }
        }
    }
}

/// Every path other than `robots.txt` and `/robots.txt`, the empty path
/// among them, is answered with the default document as HTML.
pub proof fn lemma_other_paths_get_page(path: Seq<char>, page: Seq<u8>)
    requires
        path != ROBOTS_PATH@,
        path != seq!['/'] + ROBOTS_PATH@,
    ensures
        response_for(path, page) == typed_body(PAGE_TYPE@, page),
{
    if path.len() > 0 && path[0] == '/' && path.drop_first() == ROBOTS_PATH@ {
        assert(path == seq!['/'] + path.drop_first());
    }
}

/// Exactly one leading `/` is ignored: a path that does not start with `/` is
/// answered as the same path with one `/` put in front.
pub proof fn lemma_one_leading_slash_ignored(path: Seq<char>, page: Seq<u8>)
    requires
        path.len() == 0 || path[0] != '/',
    ensures
        response_for(seq!['/'] + path, page) == response_for(path, page),
{
    assert((seq!['/'] + path).drop_first() == path);
}

/// The answer depends on the request's path alone: two requests with the same
/// path get equal responses, whatever their account, parameters, query and
/// preloads.
pub proof fn lemma_answer_reads_only_path(handler: Contract, a: Web4Request, b: Web4Request)
    requires
        a.path@ == b.path@,
    ensures
        response_for(a.path@, handler.page()) == response_for(b.path@, handler.page()),
{
}

/// `path` without its first character, where that is a `/`.
fn strip_slash(path: &str) -> (r: &str)
    ensures
        r@ == strip_leading_slash(path@),
{
    let n = path.unicode_len();
    if n > 0 && path.get_char(0) == '/' {
        path.substring_char(1, n)
    } else {
        path
    }
}

/// Whether `a` and `b` hold the same characters.
fn same_text(a: &str, b: &str) -> (r: bool)
    ensures
        r == (a@ == b@),
{
    let n = a.unicode_len();
    if n != b.unicode_len() {
        return false;
    }
    let mut i: usize = 0;
    while i < n
        invariant
            n == a@.len(),
            n == b@.len(),
            0 <= i <= n,
            a@.subrange(0, i as int) == b@.subrange(0, i as int),
        decreases n - i,
    {
        if a.get_char(i) != b.get_char(i) {
            return false;
        }
        assert(a@.subrange(0, i + 1) == a@.subrange(0, i as int).push(a@[i as int]));
        assert(b@.subrange(0, i + 1) == b@.subrange(0, i as int).push(b@[i as int]));
        i = i + 1;
    }
    assert(a@ == a@.subrange(0, n as int));
    assert(b@ == b@.subrange(0, n as int));
    true
}

/// A copy of `v`.
fn copy_bytes(v: &Vec<u8>) -> (r: Vec<u8>)
    ensures
        r@ == v@,
{
    let mut r: Vec<u8> = Vec::with_capacity(v.len());
    let mut i: usize = 0;
    while i < v.len()
        invariant
            0 <= i <= v@.len(),
            r@ == v@.subrange(0, i as int),
        decreases v@.len() - i,
    {
        r.push(v[i]);
        i = i + 1;
    }
    assert(v@ == v@.subrange(0, v@.len() as int));
    r
}

} // verus!
