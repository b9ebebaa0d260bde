//! Settings for the cloud-side light commands: the API token and the
//! output mode. The HTTP client, credential prompt and table rendering
//! live in the surrounding application; it reads its settings from here.

use vstd::prelude::*;
use vstd::string::StringExecFns;

verus! {

/// What the application needs to run the cloud-side light commands: the
/// bearer token it authenticates with and whether results are shown raw.
pub struct LifxCommands {
    token: String,
    display_raw: bool,
}

impl LifxCommands {
    /// The API token the commands authenticate with.
    pub closed spec fn token_view(self) -> Seq<char> {
        self.token@
    }

    /// Whether results are printed as raw JSON instead of tables.
    pub closed spec fn display_raw_view(self) -> bool {
        self.display_raw
    }

    /// Holds the given API key and output mode.
    pub fn new(key: &str, raw: &bool) -> (c: LifxCommands)
        ensures
            c.token_view() == key@,
            c.display_raw_view() == *raw,
    {
        LifxCommands { token: <String as StringExecFns>::from_str(key), display_raw: *raw }
    }

    /// The held API token.
    pub fn token(&self) -> (t: &String)
        ensures
            t@ == self.token_view(),
    {
        &self.token
    }

    /// The held output mode.
    pub fn display_raw(&self) -> (r: bool)
        ensures
            r == self.display_raw_view(),
    {
        self.display_raw
    }
}

} // verus!
