//! The tests, projects and environments that the application stores.

use vstd::prelude::*;
use std::collections::BTreeMap;
use crate::text::{join_text, same_text};

verus! {

/// The kind of a test, which is also the extension of the file it is
/// stored in.
#[derive(Clone, Copy, Debug, PartialEq, Eq, Structural)]
pub enum TestKind {
    Blocks,
    OpenAPI,
    Javascript,
}

/// The name of each kind.
pub open spec fn kind_name(kind: TestKind) -> Seq<char> {
    match kind {
        TestKind::Blocks => "blocks6"@,
        TestKind::OpenAPI => "openapi"@,
        TestKind::Javascript => "js"@,
    }
}

/// The message of a name that is no kind.
pub open spec fn invalid_kind_message(s: Seq<char>) -> Seq<char> {
    s + " is not a valid TestKind"@
}

impl TestKind {
    /// The kind's name: `blocks6`, `openapi` or `js`.
    pub fn to_string(&self) -> (r: String)
        ensures
            r@ == kind_name(*self),
    {
        match self {
            TestKind::Blocks => String::from_str("blocks6"),
            TestKind::OpenAPI => String::from_str("openapi"),
            TestKind::Javascript => String::from_str("js"),
        }
    }

    /// The kind with the name `s`.
    pub fn from_name(s: &str) -> (r: Result<TestKind, String>)
        ensures
            r matches Ok(k) ==> kind_name(k) == s@,
            r is Err <==> (s@ != kind_name(TestKind::Blocks) && s@ != kind_name(TestKind::OpenAPI)
                && s@ != kind_name(TestKind::Javascript)),
            r matches Err(m) ==> m@ == invalid_kind_message(s@),
    {
        if same_text(s, "blocks6") {
            Ok(TestKind::Blocks)
        } else if same_text(s, "openapi") {
            Ok(TestKind::OpenAPI)
        } else if same_text(s, "js") {
            Ok(TestKind::Javascript)
        } else {
            Err(join_text(s, " is not a valid TestKind"))
        }
    }
}

impl std::str::FromStr for TestKind {
    type Err = String;

    fn from_str(s: &str) -> Result<TestKind, String> {
        TestKind::from_name(s)
    }
}

/// A single test that can be run on its own or within a suite.
#[derive(Clone, Debug)]
pub struct Test {
    pub name: String,
    pub kind: TestKind,
    /// What the user wrote, through blocks, OpenAPI or JavaScript.
    pub content: String,
}

impl Test {
    pub fn new(name: &str, kind: TestKind, content: &str) -> (r: Test)
        ensures
            r.name@ == name@,
            r.kind == kind,
            r.content@ == content@,
    {
        Test { name: String::from_str(name), kind, content: String::from_str(content) }
    }
}

/// A single test, or a suite of tests.
#[derive(Clone, Debug)]
pub enum TestCollection {
    Test(Test),
    Suite(Vec<Test>),
}

/// The settings of a project for the cloud service.
#[derive(Clone, Debug)]
pub struct ProjectConfig {
    pub cloud_token: Option<String>,
    pub cloud_project_id: Option<String>,
}

impl ProjectConfig {
    pub fn new() -> (r: ProjectConfig)
        ensures
            r.cloud_token is None,
            r.cloud_project_id is None,
    {
        ProjectConfig { cloud_token: None, cloud_project_id: None }
    }
}

/// A named collection of tests and suites.
#[derive(Clone, Debug)]
pub struct Project {
    pub test_collections: Vec<TestCollection>,
    pub name: String,
    pub description: Option<String>,
    pub project_config: Option<ProjectConfig>,
}

/// Whether an optional string holds the text of an optional slice.
pub open spec fn same_option_text(a: Option<String>, b: Option<&str>) -> bool {
    match (a, b) {
        (Some(x), Some(y)) => x@ == y@,
        (None, None) => true,
        _ => false,
    }
}

impl Project {
    /// An empty project.
    pub fn new(name: &str, description: Option<&str>) -> (r: Project)
        ensures
            r.test_collections@.len() == 0,
            r.name@ == name@,
            same_option_text(r.description, description),
            r.project_config is None,
    {
        let description = match description {
            Some(d) => Some(String::from_str(d)),
            None => None,
        };
        Project { test_collections: Vec::new(), name: String::from_str(name), description, project_config: None }
    }

    /// The empty project named `default`.
    pub fn default() -> (r: Project)
        ensures
            r.test_collections@.len() == 0,
            r.name@ == "default"@,
            r.description is None,
            r.project_config is None,
    {
        Project::new("default", None)
    }
}

/// An environment with its variables.
#[derive(Debug)]
pub struct Environment {
    pub name: String,
    pub description: String,
    pub variables: BTreeMap<String, String>,
}

impl Environment {
    pub fn new(name: &str, description: &str, variables: BTreeMap<String, String>) -> (r: Environment)
        ensures
            r.name@ == name@,
            r.description@ == description@,
            r.variables == variables,
    {
        Environment { name: String::from_str(name), description: String::from_str(description), variables }
    }
}

/// All environments, and the name of the active one.
#[derive(Debug)]
pub struct EnvironmentsData {
    pub environments: Vec<Environment>,
    pub active: String,
}

impl EnvironmentsData {
    pub fn new(environments: Vec<Environment>, active: &str) -> (r: EnvironmentsData)
        ensures
            r.environments == environments,
            r.active@ == active@,
    {
        EnvironmentsData { environments, active: String::from_str(active) }
    }
}

/// A test stored in the cloud service.
#[derive(Debug)]
pub struct CloudTest {
    pub id: u32,
    pub name: String,
    pub project_id: u32,
    pub script: Option<String>,
}

/// The cloud service's answer to a listing of tests.
#[derive(Debug)]
pub struct CloudTestListResponse {
    pub k6_tests: Vec<CloudTest>,
}

} // verus!
