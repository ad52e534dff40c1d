//! The project tree and file operations that the user interface drives:
//! which files of a project directory are tests, and the answers it gets.

use vstd::prelude::*;
use crate::text::{join_text, same_text};

verus! {

/// The kind of a test file of a project tree.
#[derive(Clone, Copy, Debug, PartialEq, Eq, Structural)]
pub enum TestKind {
    Script,
    Blocks,
}

/// The kind of test that a file extension stands for: `js` is a script,
/// `blk6` is blocks; any other extension is no test.
pub open spec fn test_kind_of(ext: Seq<char>) -> Option<TestKind> {
    if ext == "js"@ {
        Some(TestKind::Script)
    } else if ext == "blk6"@ {
        Some(TestKind::Blocks)
    } else {
        None
    }
}

/// The kind of test that a file with extension `ext` holds, if any.
pub fn to_test_kind(ext: &str) -> (r: Option<TestKind>)
    ensures
        r == test_kind_of(ext@),
{
    if same_text(ext, "js") {
        Some(TestKind::Script)
    } else if same_text(ext, "blk6") {
        Some(TestKind::Blocks)
    } else {
        None
    }
}

/// A test file or a directory of a project tree.
#[derive(Debug)]
pub enum ProjectEntry {
    File { kind: TestKind, path: String },
    Directory { path: String, entries: Vec<ProjectEntry> },
}

/// One item of a directory listing: a subdirectory already turned into its
/// entry, or a file with its path and extension.
#[derive(Debug)]
pub enum ListedEntry {
    Directory(ProjectEntry),
    File { path: String, extension: Option<String> },
}

/// The project entries that one listed item gives: a subdirectory always,
/// a file only where its extension is a kind of test.
pub open spec fn entries_of_item(item: ListedEntry) -> Seq<ProjectEntry> {
    match item {
        ListedEntry::Directory(d) => seq![d],
        ListedEntry::File { path, extension } => match extension {
            Some(ext) => match test_kind_of(ext@) {
                Some(kind) => seq![ProjectEntry::File { kind, path }],
                None => seq![],
            },
            None => seq![],
        },
    }
}

/// The project entries of a listing, in listing order.
pub open spec fn entries_of_listing(items: Seq<ListedEntry>) -> Seq<ProjectEntry>
    decreases items.len(),
{
    if items.len() == 0 {
        seq![]
    } else {
        entries_of_item(items[0]) + entries_of_listing(items.drop_first())
    }
}

fn entries_of(item: ListedEntry) -> (r: Vec<ProjectEntry>)
    ensures
        r@ == entries_of_item(item),
{
    match item {
        ListedEntry::Directory(d) => vec![d],
        ListedEntry::File { path, extension } => match extension {
            Some(ext) => match to_test_kind(ext.as_str()) {
                Some(kind) => vec![ProjectEntry::File { kind, path }],
                None => vec![],
            },
            None => vec![],
        },
    }
}

/// The entry of the directory at `path` whose listing is `listed`: its
/// subdirectories and its test files, in listing order.
pub fn directory_entry(path: String, listed: Vec<ListedEntry>) -> (r: ProjectEntry)
    ensures
        r matches ProjectEntry::Directory { path: p, entries } && p == path && entries@
            == entries_of_listing(listed@),
{
    let ghost all = listed@;
    let mut rest = listed;
    let mut entries: Vec<ProjectEntry> = Vec::new();
    while rest.len() > 0
        invariant
            entries@ + entries_of_listing(rest@) == entries_of_listing(all),
        decreases rest.len(),
    {
        let ghost before = rest@;
        let item = rest.remove(0);
        proof {
            assert(rest@ =~= before.drop_first());
        }
        let mut found = entries_of(item);
        proof {
            assert(entries@ + found@ + entries_of_listing(rest@) =~= entries@ + (found@
                + entries_of_listing(rest@)));
        }
        entries.append(&mut found);
    }
    proof {
        assert(entries@ + entries_of_listing(rest@) =~= entries@);
    }
    ProjectEntry::Directory { path, entries }
}

/// The version of the load-testing tool a project uses.
#[derive(Clone, Debug)]
pub struct CLISettings {
    pub version: String,
}

/// The settings a project keeps in its `k6.json`.
#[derive(Clone, Debug)]
pub struct ProjectSettings {
    pub k6: CLISettings,
}

/// The settings of a project without a `k6.json`.
pub fn default_project_settings() -> (r: ProjectSettings)
    ensures
        r.k6.version@ == "v0.49.0"@,
{
    ProjectSettings { k6: CLISettings { version: String::from_str("v0.49.0") } }
}

/// The file that holds a project's settings.
pub fn settings_file_path(root: &str) -> (r: String)
    ensures
        r@ == root@ + "/k6.json"@,
{
    join_text(root, "/k6.json")
}

/// Where an installed version of the load-testing tool lives, relative to
/// the configuration directory.
pub fn installed_binary_relative_path(version: &str) -> (r: String)
    ensures
        r@ == "k6-ui/binaries/k6/"@ + version@ + "/k6"@,
{
    let dir = join_text("k6-ui/binaries/k6/", version);
    join_text(dir.as_str(), "/k6")
}

/// The filter that a save dialog offers for a kind: its label and the
/// extension of the files.
pub fn save_filter(kind: TestKind) -> (r: (String, String))
    ensures
        kind is Blocks ==> r.0@ == "k6 Blocks Test"@ && r.1@ == "blk6"@,
        kind is Script ==> r.0@ == "Script"@ && r.1@ == "js"@,
{
    match kind {
        TestKind::Blocks => (String::from_str("k6 Blocks Test"), String::from_str("blk6")),
        TestKind::Script => (String::from_str("Script"), String::from_str("js")),
    }
}

/// A project: its root, its tree and its settings.
#[derive(Debug)]
pub struct Project {
    pub root: String,
    pub directory: ProjectEntry,
    pub settings: ProjectSettings,
}

/// The answer to opening a project.
#[derive(Debug)]
pub enum OpenProjectResult {
    Cancelled,
    ProjectOpened { project: Project },
}

/// A file that was opened, with what it holds.
#[derive(Clone, Debug)]
pub struct OpenFileResult {
    pub path: String,
    pub content: String,
}

/// The answer to saving a file.
#[derive(Debug)]
pub enum SaveResponse {
    Cancelled,
    Saved { path: String, project: Project },
}

/// What saving a file asks for.
#[derive(Clone, Debug)]
pub struct SaveFileParams {
    pub root: String,
    pub path: String,
    pub content: String,
}

/// What saving a file under a new name asks for.
#[derive(Clone, Debug)]
pub struct SaveFileAsParams {
    pub kind: TestKind,
    pub file_name: String,
    pub content: String,
}

/// The answer to deleting a file: the project as it now is.
#[derive(Debug)]
pub struct DeleteFileResult {
    pub project: Project,
}

/// The answer to renaming a file: its new path.
#[derive(Clone, Debug)]
pub struct RenameResult {
    pub path: String,
}

/// The answer to creating a directory.
#[derive(Debug)]
pub struct CreateResult {
    pub path: String,
    pub project: Project,
}

/// The answer to deleting a directory.
#[derive(Debug)]
pub struct DeleteDirectoryResult {
    pub path: String,
    pub project: Project,
}

/// Whether a project uses the default settings or its own.
#[derive(Clone, Debug)]
pub enum LoadProjectSettingsResult {
    Default,
    Custom { settings: ProjectSettings },
}

} // verus!
