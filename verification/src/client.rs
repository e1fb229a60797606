//! The content client the gateway serves from.

use vstd::prelude::*;

verus! {

/// A handle to the content store.
#[derive(Debug, Clone)]
pub struct Client {
}

impl Client {
    /// A new content client.
    pub fn new() -> (r: Client)
        ensures
            true,
    {
        Client {  }
    }

    /// Fetches the content at a path.  The store echoes the path back as
    /// the content.
    pub fn get_file(&self, path: &str) -> (r: Result<String, String>)
        ensures
            r matches Ok(body) && body@ == path@,
    {
        Ok(path.to_owned())
    }
}

} // verus!
