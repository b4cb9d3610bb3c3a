use vstd::prelude::*;
use vstd::string::*;

verus! {

/// Raised when no configuration file can be found.
#[derive(Debug, Clone)]
pub struct MissingConfigError {
    details: String,
}

impl MissingConfigError {
    /// An error carrying `details`.
    pub fn new(details: String) -> (r: MissingConfigError)
        ensures
            r.details() == details@,
    {
        MissingConfigError { details }
    }

    /// What was recorded about the failure.
    pub closed spec fn details(&self) -> Seq<char> {
        self.details@
    }

    /// The recorded details.
    pub fn description(&self) -> (r: &str)
        ensures
            r@ == self.details(),
    {
        self.details.as_str()
    }

    /// The message shown to the user, whatever the details.
    pub fn message(&self) -> (r: String)
        ensures
            r@ == "configuration file missing"@,
    {
        String::from_str("configuration file missing")
    }
}

} // verus!
