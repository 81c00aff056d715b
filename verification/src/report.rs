//! What to say where carrying out a request fails.

use vstd::prelude::*;
use vstd::string::StringExecFns;

verus! {

/// The step at which carrying out a request failed.
#[derive(Clone, Copy, Debug, PartialEq, Eq, Structural)]
pub enum Stage {
    /// The input file could not be read as an image.
    Open,
    /// The output file could not be written.
    Save,
}

impl Stage {
    /// How the report of a failure at this step begins.
    pub open spec fn heading(self) -> Seq<char> {
        match self {
            Stage::Open => "Failed to open input file: "@,
            Stage::Save => "Failed to save output file: "@,
        }
    }

    /// The report of a failure at this step: the heading, then the cause as
    /// it was given.
    pub fn failure(self, cause: &str) -> (line: String)
        ensures
            line@ == self.heading() + cause@,
    {
        match self {
            Stage::Open => String::from_str("Failed to open input file: ").concat(cause),
            Stage::Save => String::from_str("Failed to save output file: ").concat(cause),
        }
    }
}

} // verus!
