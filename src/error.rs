//! The fatal conditions of server resolution and their diagnostic text.
use vstd::prelude::*;
use crate::text::{decimal, decimal_text};

verus! {

/// A condition that ends one initialization attempt.
#[derive(Debug, PartialEq, Eq)]
pub enum PluginError {
    /// The host could not report an environment value; holds its reason.
    Environment(String),
    /// The host's operating system name is not supported; holds that name.
    UnsupportedPlatform(String),
    /// The host's architecture name is not supported; holds that name.
    UnsupportedArchitecture(String),
    /// A remote endpoint answered with a status outside 200..=299.
    RemoteStatus(u16),
    /// The version endpoint answered with a body that is not UTF-8.
    InvalidVersionText,
    /// A file could not be written, read or removed; holds the reason.
    Io(String),
}

/// The text that describes an error.
pub open spec fn error_text(e: PluginError) -> Seq<char> {
    match e {
        PluginError::Environment(s) => "environment unavailable: "@ + s@,
        PluginError::UnsupportedPlatform(s) => "unsupported platform "@ + s@,
        PluginError::UnsupportedArchitecture(s) => "unsupported architecture "@ + s@,
        PluginError::RemoteStatus(code) => "Response error: "@ + decimal(code as nat),
        PluginError::InvalidVersionText => "version response is not valid UTF-8"@,
        PluginError::Io(s) => "I/O failure: "@ + s@,
    }
}

/// The diagnostic shown to the user for an error.
pub open spec fn diagnostic_of(e: PluginError) -> Seq<char> {
    "plugin returned with error: "@ + error_text(e)
}

impl PluginError {
    /// The text that describes this error.
    pub fn text(&self) -> (r: String)
        ensures
            r@ == error_text(*self),
    {
        match self {
            PluginError::Environment(s) => String::from_str("environment unavailable: ").concat(s.as_str()),
            PluginError::UnsupportedPlatform(s) => String::from_str("unsupported platform ").concat(s.as_str()),
            PluginError::UnsupportedArchitecture(s) => String::from_str("unsupported architecture ").concat(s.as_str()),
            PluginError::RemoteStatus(code) => {
                let digits = decimal_text(*code);
                String::from_str("Response error: ").concat(digits.as_str())
            },
            PluginError::InvalidVersionText => String::from_str("version response is not valid UTF-8"),
            PluginError::Io(s) => String::from_str("I/O failure: ").concat(s.as_str()),
        }
    }

    /// The diagnostic shown to the user for this error.
    pub fn diagnostic(&self) -> (r: String)
        ensures
            r@ == diagnostic_of(*self),
    {
        let t = self.text();
        String::from_str("plugin returned with error: ").concat(t.as_str())
    }
}

} // verus!
