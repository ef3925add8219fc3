//! Where the picture library and the trash folder are.

use vstd::prelude::*;

verus! {

/// Folders of the application.
#[derive(Debug, Clone)]
pub struct Config {
    pub library: String,
    pub trash: String,
}

impl Config {
    /// The folders used when no configuration file exists yet.
    pub fn fallback() -> (r: Config)
        ensures
            r.library@ == "~/Pictures/"@,
            r.trash@ == "~/trash/"@,
    {
        Config { library: String::from_str("~/Pictures/"), trash: String::from_str("~/trash/") }
    }
}

} // verus!
