//! A gateway handler for web4 requests: a request names a path, and the
//! handler answers with a response descriptor (content type, status, body or
//! body URL, URLs to preload).
//!
//! The response type, its mathematical model and its builders live in
//! `response`; the request shape lives in `request`; the dispatcher that maps a
//! path to a response lives in `dispatch`.

pub mod archive;
pub mod dispatch;
pub mod request;
pub mod response;

pub use archive::ArchivedFile;
pub use dispatch::Contract;
pub use request::Web4Request;
pub use response::Web4Response;
