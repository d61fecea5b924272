//! The official Roslyn language server.
use vstd::prelude::*;

verus! {

/// The official Roslyn language server, as the editor sees it. It keeps nothing between requests.
pub struct RoslynOfficial {}

impl RoslynOfficial {
    /// The name that the editor knows the server by.
    pub const LANGUAGE_SERVER_ID: &'static str = "roslyn-official";

    pub fn new() -> (server: Self)
        ensures
            server == (RoslynOfficial {  }),
    {
        RoslynOfficial {  }
    }
}

} // verus!
