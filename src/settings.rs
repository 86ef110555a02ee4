//! The user's override of the language server, read from the `lsp` section of
//! the initialization options.
use vstd::prelude::*;
use crate::text::{blank, is_blank};

verus! {

/// What is read of the `lsp` section of the initialization options.
#[derive(Debug, PartialEq, Eq)]
pub struct LspSettings {
    /// `serverPath`: `Some` when the key is present and holds a string.
    pub server_path: Option<String>,
    /// `serverArgs`: `Some` when the key is present and holds an array; each
    /// element is `Some` when it is a string.
    pub server_args: Option<Vec<Option<String>>>,
}

/// A user-chosen server: an opaque identifier and its arguments.
#[derive(Debug, PartialEq, Eq)]
pub struct ServerOverride {
    pub path: String,
    pub args: Vec<String>,
}

/// The string elements of an argument array, in order; other elements are
/// left out.
pub open spec fn string_items(items: Seq<Option<String>>) -> Seq<String>
    decreases items.len(),
{
    if items.len() == 0 {
        Seq::empty()
    } else {
        let rest = string_items(items.drop_last());
        match items.last() {
            Some(s) => rest.push(s),
            None => rest,
        }
    }
}

/// The arguments that the settings give to the server.
pub open spec fn settings_args(s: LspSettings) -> Seq<String> {
    match s.server_args {
        Some(items) => string_items(items@),
        None => Seq::empty(),
    }
}

/// Whether the settings name a server of the user's own: a path that is a
/// string and not blank once trimmed.
pub open spec fn has_override(s: LspSettings) -> bool {
    s.server_path is Some && !is_blank(s.server_path->Some_0@)
}

impl LspSettings {
    /// Settings with neither key present.
    pub fn empty() -> (r: LspSettings)
        ensures
            r.server_path is None,
            r.server_args is None,
    {
        LspSettings { server_path: None, server_args: None }
    }

    /// The arguments for the server: the string elements of `serverArgs`, in
    /// order; none when the key is absent or not an array.
    pub fn args(&self) -> (r: Vec<String>)
        ensures
            r@ == settings_args(*self),
    {
        let mut out: Vec<String> = Vec::new();
        match &self.server_args {
            None => {},
            Some(items) => {
                let mut i: usize = 0;
                while i < items.len()
                    invariant
                        i <= items@.len(),
                        out@ == string_items(items@.subrange(0, i as int)),
                    decreases items@.len() - i,
                {
                    assert(items@.subrange(0, i + 1).drop_last() =~= items@.subrange(0, i as int));
                    match &items[i] {
                        Some(s) => out.push(s.clone()),
                        None => {},
                    }
                    i = i + 1;
                }
                assert(items@.subrange(0, items@.len() as int) =~= items@);
            },
        }
        out
    }

    /// The user's server, when `serverPath` is a string that is not blank
    /// after trimming; its identifier is kept verbatim.
    pub fn server_override(&self) -> (r: Option<ServerOverride>)
        ensures
            r is Some <==> has_override(*self),
            r matches Some(o) ==> o.path@ == self.server_path->Some_0@ && o.args@ == settings_args(
                *self,
            ),
    {
        match &self.server_path {
            Some(p) => {
                if blank(p.as_str()) {
                    None
                } else {
                    let args = self.args();
                    Some(ServerOverride { path: p.clone(), args })
                }
            },
            None => None,
        }
    }
}

} // verus!
