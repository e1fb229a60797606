//! The gateway's configuration.

use crate::headers::Headers;
use vstd::prelude::*;

verus! {

/// Configuration of the gateway: feature switches, the headers added to
/// every response, and the port to serve on.
#[derive(Debug)]
pub struct Config {
    pub writeable: bool,
    pub fetch: bool,
    pub cache: bool,
    pub headers: Headers,
    pub port: String,
}

impl Config {
    /// The header table is well-formed.
    pub open spec fn wf(&self) -> bool {
        self.headers.wf()
    }
}

} // verus!
