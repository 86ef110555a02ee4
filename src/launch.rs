//! What is handed to the host to start the language server.
use vstd::prelude::*;
use crate::platform::{executable_name_of, TargetOs};
use crate::settings::ServerOverride;

verus! {

/// One rule of a document selector.
#[derive(Debug, PartialEq, Eq)]
pub struct DocumentFilterSpec {
    /// Language id the rule matches.
    pub language: Option<String>,
    /// Glob pattern the rule matches.
    pub pattern: Option<String>,
    /// URI scheme the rule matches.
    pub scheme: Option<String>,
}

/// Where the server executable is found.
#[derive(Debug, PartialEq, Eq)]
pub enum ServerLocation {
    /// An opaque identifier, as a `urn:` resource text.
    Identifier(String),
    /// A file name, relative to the plugin's own directory.
    PluginFile(String),
}

/// The request to start the server.
#[derive(Debug, PartialEq, Eq)]
pub struct LaunchPlan {
    pub location: ServerLocation,
    pub args: Vec<String>,
    pub selector: Vec<DocumentFilterSpec>,
}

/// The selector claims every document: one rule with an empty language id,
/// the pattern `**/*` and no scheme.
pub open spec fn is_catch_all(sel: Seq<DocumentFilterSpec>) -> bool {
    &&& sel.len() == 1
    &&& sel[0].language matches Some(l) && l@ == ""@
    &&& sel[0].pattern matches Some(p) && p@ == "**/*"@
    &&& sel[0].scheme is None
}

/// The resource text of a user-chosen server identifier.
pub open spec fn identifier_text(path: Seq<char>) -> Seq<char> {
    "urn:"@ + path
}

/// The selector of every launch: it claims every document.
pub fn catch_all_selector() -> (r: Vec<DocumentFilterSpec>)
    ensures
        is_catch_all(r@),
{
    let rule = DocumentFilterSpec {
        language: Some(String::from_str("")),
        pattern: Some(String::from_str("**/*")),
        scheme: None,
    };
    let mut v: Vec<DocumentFilterSpec> = Vec::new();
    v.push(rule);
    v
}

/// The launch of a server that the user named: its identifier as a `urn:`
/// resource and its arguments as given.
pub fn override_launch(o: ServerOverride) -> (r: LaunchPlan)
    ensures
        r.location matches ServerLocation::Identifier(t) && t@ == identifier_text(o.path@),
        r.args@ == o.args@,
        is_catch_all(r.selector@),
{
    let text = String::from_str("urn:").concat(o.path.as_str());
    LaunchPlan { location: ServerLocation::Identifier(text), args: o.args, selector: catch_all_selector() }
}

/// The launch of the downloaded server: its executable in the plugin's
/// directory, named for the target's operating system.
pub fn bundled_launch(os: TargetOs, args: Vec<String>) -> (r: LaunchPlan)
    ensures
        r.location matches ServerLocation::PluginFile(f) && f@ == executable_name_of(os),
        r.args@ == args@,
        is_catch_all(r.selector@),
{
    let file = String::from_str(os.executable_name());
    LaunchPlan { location: ServerLocation::PluginFile(file), args, selector: catch_all_selector() }
}

} // verus!
