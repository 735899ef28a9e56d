//! The library's error type.

use vstd::prelude::*;
use vstd::string::*;

verus! {

/// What can go wrong in a render call.
#[derive(Debug, Clone)]
pub enum Error {
    /// The configuration names something that is not supported.
    ConfigError(String),
    /// The image could not be rendered.
    RenderError(String),
}

impl Error {
    /// The text that precedes the detail in the message of an error.
    pub open spec fn prefix(self) -> Seq<char> {
        match self {
            Error::ConfigError(_) => "Failed to load configuration: "@,
            Error::RenderError(_) => "Failed to render image: "@,
        }
    }

    /// The detail that the error carries.
    pub open spec fn detail(self) -> Seq<char> {
        match self {
            Error::ConfigError(s) => s@,
            Error::RenderError(s) => s@,
        }
    }

    /// The human-readable message: the prefix of the variant, then the detail.
    pub fn message(&self) -> (s: String)
        ensures
            s@ == self.prefix() + self.detail(),
    {
        match self {
            Error::ConfigError(d) => String::from_str("Failed to load configuration: ").concat(
                d.as_str(),
            ),
            Error::RenderError(d) => String::from_str("Failed to render image: ").concat(
                d.as_str(),
            ),
        }
    }
}

} // verus!
