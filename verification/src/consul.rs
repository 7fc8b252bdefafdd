//! The configuration-backend client state: its base address and the URL
//! each read goes to. Reads are unauthenticated and request raw value
//! semantics.
use crate::address::{kv_base, request_url, spec_kv_base, spec_request_url};
use vstd::prelude::*;

verus! {

/// The URL a configuration read for `key` is sent to: the key joined onto
/// the base, requesting the raw value.
pub open spec fn spec_config_url(base: Seq<char>, key: Seq<char>) -> Seq<char> {
    spec_request_url(base, key) + "?raw=true"@
}

/// The configuration-backend client: a base address with the standard
/// key/value API path appended.
pub struct Client {
    pub base: String,
}

impl Client {
    /// A client for the given backend address; the standard key/value API
    /// path segments are appended.
    pub fn new(address: &str) -> (r: Client)
        ensures
            r.base@ == spec_kv_base(address@),
    {
        Client { base: kv_base(address) }
    }

    /// The URL a read for `key` is sent to.
    pub fn url_for(&self, key: &str) -> (r: String)
        ensures
            r@ == spec_config_url(self.base@, key@),
    {
        let mut out = request_url(self.base.as_str(), key);
        out.append("?raw=true");
        out
    }
}

} // verus!
