//! The persisted user preferences. Reading and writing the settings file is the
//! unverified shell's job; this module only fixes the record and its defaults.

use vstd::prelude::*;

verus! {

/// The stored preferences: the display language's name and the refresh interval
/// in seconds.
#[derive(Debug, PartialEq)]
pub struct Settings {
    pub language: String,
    pub refresh_interval: u64,
}

impl Clone for Settings {
    fn clone(&self) -> (r: Self)
        ensures
            r == *self,
    {
        Settings { language: self.language.clone(), refresh_interval: self.refresh_interval }
    }
}

impl Default for Settings {
    /// The defaults used when no settings file exists or it cannot be read.
    fn default() -> (r: Self)
        ensures
            r.language@ == "Chinese"@,
            r.refresh_interval == 300,
    {
        Settings { language: String::from_str("Chinese"), refresh_interval: 300 }
    }
}

} // verus!
