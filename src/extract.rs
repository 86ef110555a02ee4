//! What to do with each entry of the downloaded archive.
use vstd::prelude::*;

verus! {

/// An entry of the archive as listed: its stored name, and whether that name
/// stays inside the extraction root.
#[derive(Debug, PartialEq, Eq)]
pub struct ArchiveEntry {
    pub name: String,
    pub enclosed: bool,
}

/// The work for one entry.
#[derive(Debug, PartialEq, Eq)]
pub enum EntryAction {
    /// The entry is left out.
    Skip,
    /// Create this directory and its ancestors.
    CreateDir(String),
    /// Create the parent directory when there is one, then write the entry's
    /// bytes to this file, replacing any file there.
    WriteFile { path: String, parent: Option<String> },
}

/// The index of the last `/` in `s`, if any.
pub open spec fn last_slash(s: Seq<char>) -> Option<int>
    decreases s.len(),
{
    if s.len() == 0 {
        None
    } else if s.last() == '/' {
        Some(s.len() - 1)
    } else {
        last_slash(s.drop_last())
    }
}

/// The directory part of a stored file name: what comes before its last `/`,
/// when that is not empty.
pub open spec fn parent_of(s: Seq<char>) -> Option<Seq<char>> {
    match last_slash(s) {
        Some(i) => if i > 0 { Some(s.subrange(0, i)) } else { None },
        None => None,
    }
}

/// A computed directory part agrees with the stated one.
pub open spec fn same_parent(p: Option<String>, q: Option<Seq<char>>) -> bool {
    match (p, q) {
        (Some(p), Some(q)) => p@ == q,
        (None, None) => true,
        _ => false,
    }
}

/// The work for an entry: skipped when its name leaves the root, a directory
/// when the name ends with `/`, else a file.
pub open spec fn entry_action_matches(e: ArchiveEntry, a: EntryAction) -> bool {
    let n = e.name@;
    if !e.enclosed {
        a is Skip
    } else if n.len() > 0 && n.last() == '/' {
        a matches EntryAction::CreateDir(d) && d@ == n
    } else {
        a matches EntryAction::WriteFile { path, parent } && path@ == n && same_parent(
            parent,
            parent_of(n),
        )
    }
}

/// The directory part of `s`, as `parent_of`.
pub fn parent_text(s: &str) -> (r: Option<String>)
    ensures
        same_parent(r, parent_of(s@)),
{
    let n = s.unicode_len();
    let mut i: usize = n;
    assert(s@.subrange(0, n as int) =~= s@);
    while i > 0
        invariant
            n == s@.len(),
            i <= n,
            last_slash(s@) == last_slash(s@.subrange(0, i as int)),
        decreases i,
    {
        if s.get_char(i - 1) == '/' {
            let k: usize = i - 1;
            assert(s@.subrange(0, i as int).last() == '/');
            if k == 0 {
                return None;
            }
            let p = s.substring_char(0, k);
            return Some(String::from_str(p));
        }
        assert(s@.subrange(0, i as int).drop_last() =~= s@.subrange(0, i - 1));
        i = i - 1;
    }
    None
}

/// Decides the work for one entry.
pub fn plan_entry(e: &ArchiveEntry) -> (r: EntryAction)
    ensures
        entry_action_matches(*e, r),
{
    if !e.enclosed {
        return EntryAction::Skip;
    }
    let n = e.name.as_str().unicode_len();
    if n > 0 && e.name.as_str().get_char(n - 1) == '/' {
        EntryAction::CreateDir(e.name.clone())
    } else {
        let parent = parent_text(e.name.as_str());
        EntryAction::WriteFile { path: e.name.clone(), parent }
    }
}

/// Decides the work for every entry, in order: the entries whose names leave
/// the root are skipped and every other entry is still extracted.
pub fn plan_entries(entries: &Vec<ArchiveEntry>) -> (r: Vec<EntryAction>)
    ensures
        r@.len() == entries@.len(),
        forall|i: int| 0 <= i < r@.len() ==> entry_action_matches(entries@[i], #[trigger] r@[i]),
{
    let mut out: Vec<EntryAction> = Vec::new();
    let mut i: usize = 0;
    while i < entries.len()
        invariant
            i <= entries@.len(),
            out@.len() == i,
            forall|j: int| 0 <= j < i ==> entry_action_matches(entries@[j], #[trigger] out@[j]),
        decreases entries@.len() - i,
    {
        let a = plan_entry(&entries[i]);
        out.push(a);
        i = i + 1;
    }
    out
}

/// An entry is skipped exactly when its name leaves the extraction root;
/// every other entry is unpacked under its own name.
pub proof fn lemma_only_escaping_entries_skipped(e: ArchiveEntry, a: EntryAction)
    requires
        entry_action_matches(e, a),
    ensures
        a is Skip <==> !e.enclosed,
        a is CreateDir ==> a->CreateDir_0@ == e.name@,
        a is WriteFile ==> a->path@ == e.name@,
{
}

} // verus!
