use lapce_tabnine::extract::{parent_text, plan_entries, plan_entry, ArchiveEntry, EntryAction};

fn entry(name: &str, enclosed: bool) -> ArchiveEntry {
    ArchiveEntry { name: String::from(name), enclosed }
}

#[test]
fn directory_entry_is_created() {
    assert_eq!(plan_entry(&entry("bin/lib/", true)), EntryAction::CreateDir(String::from("bin/lib/")));
}

#[test]
fn nested_file_creates_parent() {
    assert_eq!(
        plan_entry(&entry("bin/lib/TabNine", true)),
        EntryAction::WriteFile {
            path: String::from("bin/lib/TabNine"),
            parent: Some(String::from("bin/lib"))
        }
    );
}

#[test]
fn top_level_file_has_no_parent() {
    assert_eq!(
        plan_entry(&entry("TabNine.exe", true)),
        EntryAction::WriteFile { path: String::from("TabNine.exe"), parent: None }
    );
}

#[test]
fn escaping_entry_is_skipped_others_kept() {
    let entries = vec![
        entry("a/", true),
        entry("../evil", false),
        entry("a/b.txt", true),
        entry("/etc/passwd", false),
        entry("c", true),
    ];
    let plan = plan_entries(&entries);
    assert_eq!(
        plan,
        vec![
            EntryAction::CreateDir(String::from("a/")),
            EntryAction::Skip,
            EntryAction::WriteFile { path: String::from("a/b.txt"), parent: Some(String::from("a")) },
            EntryAction::Skip,
            EntryAction::WriteFile { path: String::from("c"), parent: None },
        ]
    );
}

#[test]
fn parents_of_names() {
    assert_eq!(parent_text("x/y/z"), Some(String::from("x/y")));
    assert_eq!(parent_text("/z"), None);
    assert_eq!(parent_text("z"), None);
    assert_eq!(parent_text(""), None);
}
