use std::collections::HashMap;
use vstd::prelude::*;

use crate::response::Web4Response;

verus! {

/// An inbound request as the host decodes it.
///
/// Only `path` takes part in dispatch. The other fields belong to the request
/// shape of the gateway protocol and are carried without being read.
#[derive(Clone, Debug)]
pub struct Web4Request {
    /// The caller's account, when the host knows it.
    pub account_id: Option<String>,
    /// The route being requested.
    pub path: String,
    /// Named route parameters.
    pub params: Option<HashMap<String, String>>,
    /// Query-string values, several per key, in order.
    pub query: Option<HashMap<String, Vec<String>>>,
    /// Responses the host fetched ahead of this call, by URL.
    pub preloads: Option<HashMap<String, Web4Response>>,
}

} // verus!
