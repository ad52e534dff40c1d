//! Where the project and environment stores keep their files, and the
//! decisions they make on what they find there. Reading and writing the
//! files is left to the caller.

use vstd::prelude::*;
use std::collections::BTreeMap;
use crate::models::{Environment, EnvironmentsData, Test, TestKind, kind_name};
use crate::text::{join_text, same_text};

verus! {

/// A path followed by a relative or absolute part, as `Path::join` gives it
/// on Unix: an absolute part replaces the path, and a separator goes between
/// the two unless the path is empty or already ends in one.
pub open spec fn path_join(base: Seq<char>, part: Seq<char>) -> Seq<char> {
    if part.len() > 0 && part[0] == '/' {
        part
    } else if base.len() == 0 || base.last() == '/' {
        base + part
    } else {
        base + "/"@ + part
    }
}

/// Joins `part` onto the path `base`.
pub fn join_path(base: &str, part: &str) -> (r: String)
    ensures
        r@ == path_join(base@, part@),
{
    let part_len = part.unicode_len();
    let base_len = base.unicode_len();
    if part_len > 0 && part.get_char(0) == '/' {
        String::from_str(part)
    } else if base_len == 0 || base.get_char(base_len - 1) == '/' {
        join_text(base, part)
    } else {
        let with_sep = join_text(base, "/");
        join_text(with_sep.as_str(), part)
    }
}

/// The directory, under the store's base path, that holds the projects.
pub open spec fn projects_dir_of(base: Seq<char>) -> Seq<char> {
    path_join(base, "projects"@)
}

/// Keeps projects as directories of test files under a base path.
#[derive(Debug)]
pub struct LocalProjectManager {
    pub base_path: String,
}

impl LocalProjectManager {
    pub fn new(base_path: String) -> (r: LocalProjectManager)
        ensures
            r.base_path == base_path,
    {
        LocalProjectManager { base_path }
    }

    /// The directory that holds the projects.
    pub fn projects_dir(&self) -> (r: String)
        ensures
            r@ == projects_dir_of(self.base_path@),
    {
        join_path(self.base_path.as_str(), "projects")
    }

    /// The directory of the project `name`.
    pub fn project_path(&self, name: &str) -> (r: String)
        ensures
            r@ == path_join(projects_dir_of(self.base_path@), name@),
    {
        let dir = self.projects_dir();
        join_path(dir.as_str(), name)
    }

    /// The file of the project `project_name` that holds its settings.
    pub fn project_config_path(&self, project_name: &str) -> (r: String)
        ensures
            r@ == path_join(
                path_join(projects_dir_of(self.base_path@), project_name@),
                "project_config.json"@,
            ),
    {
        let dir = self.project_path(project_name);
        join_path(dir.as_str(), "project_config.json")
    }
}

/// The file name of a test: its name, a dot, and its kind.
pub open spec fn test_file_name_of(name: Seq<char>, kind: TestKind) -> Seq<char> {
    name + "."@ + kind_name(kind)
}

/// The name of the file that a test is stored in.
pub fn test_file_name(test: &Test) -> (r: String)
    ensures
        r@ == test_file_name_of(test.name@, test.kind),
{
    let with_dot = join_text(test.name.as_str(), ".");
    let kind = test.kind.to_string();
    join_text(with_dot.as_str(), kind.as_str())
}

/// What a file of a project directory holds, judged by its extension.
#[derive(Clone, Copy, Debug, PartialEq, Eq, Structural)]
pub enum StoredFile {
    /// Settings, not a test.
    Settings,
    /// A test of this kind.
    Test(TestKind),
    /// An extension that is no kind of test.
    Invalid,
}

/// How a file with extension `ext` is read: `json` is settings, the name of
/// a kind is a test of that kind, and anything else is invalid data.
pub fn classify_stored_file(ext: &str) -> (r: StoredFile)
    ensures
        ext@ == "json"@ ==> r is Settings,
        ext@ != "json"@ ==> match r {
            StoredFile::Test(k) => kind_name(k) == ext@,
            StoredFile::Invalid => ext@ != kind_name(TestKind::Blocks) && ext@ != kind_name(
                TestKind::OpenAPI,
            ) && ext@ != kind_name(TestKind::Javascript),
            StoredFile::Settings => false,
        },
{
    if same_text(ext, "json") {
        return StoredFile::Settings;
    }
    match TestKind::from_name(ext) {
        Ok(k) => StoredFile::Test(k),
        Err(_) => StoredFile::Invalid,
    }
}

/// The position of the first file whose name without extension is
/// `basename`: how a test is found whatever its kind.
pub fn find_by_stem(stems: &Vec<String>, basename: &str) -> (r: Option<usize>)
    ensures
        r matches Some(i) ==> i < stems@.len() && stems@[i as int]@ == basename@ && forall|j: int|
            0 <= j < i ==> (#[trigger] stems@[j])@ != basename@,
        r is None ==> forall|j: int| 0 <= j < stems@.len() ==> (#[trigger] stems@[j])@ != basename@,
{
    let mut i: usize = 0;
    while i < stems.len()
        invariant
            i <= stems@.len(),
            forall|j: int| 0 <= j < i ==> (#[trigger] stems@[j])@ != basename@,
        decreases stems.len() - i,
    {
        if same_text(stems[i].as_str(), basename) {
            return Some(i);
        }
        i = i + 1;
    }
    None
}

/// Keeps the environments in one file under the storage path.
#[derive(Debug)]
pub struct EnvironmentManager {
    pub file_path: String,
}

impl EnvironmentManager {
    pub fn new(storage_path: String) -> (r: EnvironmentManager)
        ensures
            r.file_path@ == path_join(storage_path@, "environments.json"@),
    {
        EnvironmentManager { file_path: join_path(storage_path.as_str(), "environments.json") }
    }
}

/// What a new environment file holds: one empty environment named
/// `default`, which is active.
pub fn default_environments() -> (r: EnvironmentsData)
    ensures
        r.environments@.len() == 1,
        r.environments@[0].name@ == "default"@,
        r.environments@[0].description@ == "default environment"@,
        r.environments@[0].variables@ == Map::<String, String>::empty(),
        r.active@ == "default"@,
{
    let variables: BTreeMap<String, String> = BTreeMap::new();
    let environment = Environment::new("default", "default environment", variables);
    let mut environments: Vec<Environment> = Vec::new();
    environments.push(environment);
    EnvironmentsData::new(environments, "default")
}

} // verus!
