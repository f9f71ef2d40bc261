use vstd::prelude::*;
use vstd::string::*;
use vstd::utf8::*;

verus! {

broadcast use {encode_utf8_decode_utf8, encode_utf8_valid_utf8};

/// The content type of an HTML page built from text.
pub const HTML_UTF8: &'static str = "text/html; charset=UTF-8";

/// The content type of a plain-text page built from text.
pub const PLAIN_UTF8: &'static str = "text/plain; charset=UTF-8";

/// What a response says, field by field, with `None` for a field that is absent.
pub struct ResponseModel {
    pub content_type: Option<Seq<char>>,
    pub status: Option<u32>,
    pub body: Option<Seq<u8>>,
    pub body_url: Option<Seq<char>>,
    pub preload_urls: Option<Seq<Seq<char>>>,
}

/// The response with every field absent.
pub open spec fn absent() -> ResponseModel {
    ResponseModel { content_type: None, status: None, body: None, body_url: None, preload_urls: None }
}

/// A response that carries `body` with the content type `content_type`, and nothing else.
pub open spec fn typed_body(content_type: Seq<char>, body: Seq<u8>) -> ResponseModel {
    ResponseModel {
        content_type: Some(content_type),
        status: None,
        body: Some(body),
        body_url: None,
        preload_urls: None,
    }
}

/// The text held by an optional string.
pub open spec fn opt_chars(o: Option<String>) -> Option<Seq<char>> {
    match o {
        Some(s) => Some(s@),
        None => None,
    }
}

/// The bytes held by an optional byte vector.
pub open spec fn opt_bytes(o: Option<Vec<u8>>) -> Option<Seq<u8>> {
    match o {
        Some(v) => Some(v@),
        None => None,
    }
}

/// The texts held by an optional vector of strings, in order.
pub open spec fn opt_texts(o: Option<Vec<String>>) -> Option<Seq<Seq<char>>> {
    match o {
        Some(v) => Some(v.deep_view()),
        None => None,
    }
}

/// An outbound response descriptor. Every field is optional, and an absent
/// field is left out of the encoded response rather than sent empty.
#[derive(Clone, Debug, PartialEq, Eq)]
pub struct Web4Response {
    pub content_type: Option<String>,
    pub status: Option<u32>,
    pub body: Option<Vec<u8>>,
    pub body_url: Option<String>,
    pub preload_urls: Option<Vec<String>>,
}

impl View for Web4Response {
    type V = ResponseModel;

    open spec fn view(&self) -> ResponseModel {
        ResponseModel {
            content_type: opt_chars(self.content_type),
            status: self.status,
            body: opt_bytes(self.body),
            body_url: opt_chars(self.body_url),
            preload_urls: opt_texts(self.preload_urls),
        }
    }
}

impl Web4Response {
    /// An HTML page whose body is the UTF-8 encoding of `text`, unescaped.
    pub fn html_response(text: String) -> (r: Web4Response)
        ensures
            r@ == typed_body(HTML_UTF8@, encode_utf8(text@)),
            decode_utf8(r@.body.unwrap()) == text@,
    {
        Web4Response {
            content_type: Some(String::from_str(HTML_UTF8)),
            status: None,
            body: Some(text.as_str().as_bytes_vec()),
            body_url: None,
            preload_urls: None,
        }
    }

    /// A plain-text page whose body is the UTF-8 encoding of `text`.
    pub fn plain_response(text: String) -> (r: Web4Response)
        ensures
            r@ == typed_body(PLAIN_UTF8@, encode_utf8(text@)),
            decode_utf8(r@.body.unwrap()) == text@,
    {
        Web4Response {
            content_type: Some(String::from_str(PLAIN_UTF8)),
            status: None,
            body: Some(text.as_str().as_bytes_vec()),
            body_url: None,
            preload_urls: None,
        }
    }

    /// A response that only asks the host to fetch `urls`, in this order.
    pub fn preload_urls(urls: Vec<String>) -> (r: Web4Response)
        ensures
            r@ == (ResponseModel { preload_urls: Some(urls.deep_view()), ..absent() }),
    {
        Web4Response {
            content_type: None,
            status: None,
            body: None,
            body_url: None,
            preload_urls: Some(urls),
        }
    }

    /// A response whose body is to be fetched from `url`.
    pub fn body_url(url: String) -> (r: Web4Response)
        ensures
            r@ == (ResponseModel { body_url: Some(url@), ..absent() }),
    {
        Web4Response {
            content_type: None,
            status: None,
            body: None,
            body_url: Some(url),
            preload_urls: None,
        }
    }

    /// A response that only sets the status code.
    pub fn status(status: u32) -> (r: Web4Response)
        ensures
            r@ == (ResponseModel { status: Some(status), ..absent() }),
    {
        Web4Response {
            content_type: None,
            status: Some(status),
            body: None,
            body_url: None,
            preload_urls: None,
        }
    }
}

} // verus!
