use std::collections::BTreeMap;
use std::str::FromStr;

use kroco6::application::{application_directory_in, Config, NewState, State};
use kroco6::js::{
    default_project_settings, directory_entry, installed_binary_relative_path, save_filter,
    settings_file_path, to_test_kind, ListedEntry, ProjectEntry, TestKind as TreeKind,
};
use kroco6::models::{
    Environment, EnvironmentsData, Project, ProjectConfig, Test, TestCollection, TestKind,
};
use kroco6::operations::{
    classify_stored_file, default_environments, find_by_stem, join_path, test_file_name,
    EnvironmentManager, LocalProjectManager, StoredFile,
};

#[test]
fn test_kind_names_round_trip() {
    for kind in [TestKind::Blocks, TestKind::OpenAPI, TestKind::Javascript] {
        assert_eq!(TestKind::from_str(&kind.to_string()), Ok(kind));
    }
    assert_eq!(TestKind::Blocks.to_string(), "blocks6");
    assert_eq!(TestKind::OpenAPI.to_string(), "openapi");
    assert_eq!(TestKind::Javascript.to_string(), "js");
}

#[test]
fn unknown_test_kind_is_an_error() {
    assert_eq!(TestKind::from_str("py"), Err("py is not a valid TestKind".to_string()));
    assert_eq!(TestKind::from_name("JS"), Err("JS is not a valid TestKind".to_string()));
}

#[test]
fn constructors_keep_their_arguments() {
    let t = Test::new("login", TestKind::Javascript, "export default function () {}");
    assert_eq!(t.name, "login");
    assert_eq!(t.kind, TestKind::Javascript);
    assert_eq!(t.content, "export default function () {}");
    let p = Project::new("shop", Some("checkout flows"));
    assert!(p.test_collections.is_empty());
    assert_eq!(p.name, "shop");
    assert_eq!(p.description.as_deref(), Some("checkout flows"));
    assert!(p.project_config.is_none());
    let d = Project::default();
    assert_eq!(d.name, "default");
    assert!(d.description.is_none());
    let c = ProjectConfig::new();
    assert!(c.cloud_token.is_none() && c.cloud_project_id.is_none());
    let mut vars = BTreeMap::new();
    vars.insert("HOST".to_string(), "example.com".to_string());
    let e = Environment::new("staging", "pre-production", vars.clone());
    assert_eq!(e.variables, vars);
    let data = EnvironmentsData::new(vec![e], "staging");
    assert_eq!(data.active, "staging");
    assert_eq!(data.environments.len(), 1);
    let suite = TestCollection::Suite(vec![t.clone()]);
    assert!(matches!(suite, TestCollection::Suite(ref v) if v.len() == 1));
}

#[test]
fn test_files_are_named_by_kind() {
    let t = Test::new("login", TestKind::Blocks, "");
    assert_eq!(test_file_name(&t), "login.blocks6");
    let t = Test::new("api", TestKind::OpenAPI, "");
    assert_eq!(test_file_name(&t), "api.openapi");
}

#[test]
fn stored_files_are_classified_by_extension() {
    assert_eq!(classify_stored_file("json"), StoredFile::Settings);
    assert_eq!(classify_stored_file("js"), StoredFile::Test(TestKind::Javascript));
    assert_eq!(classify_stored_file("blocks6"), StoredFile::Test(TestKind::Blocks));
    assert_eq!(classify_stored_file("txt"), StoredFile::Invalid);
}

#[test]
fn tests_are_found_by_stem() {
    let stems = vec!["a".to_string(), "login".to_string(), "login".to_string()];
    assert_eq!(find_by_stem(&stems, "login"), Some(1));
    assert_eq!(find_by_stem(&stems, "logout"), None);
}

#[test]
fn paths_join_like_std() {
    assert_eq!(join_path("/base", "projects"), "/base/projects");
    assert_eq!(join_path("/base/", "projects"), "/base/projects");
    assert_eq!(join_path("", "projects"), "projects");
    assert_eq!(join_path("/base", "/abs"), "/abs");
    for (a, b) in [("/x/y", "z"), ("/x/", "z"), ("", "z"), ("/x", "/z")] {
        let std_join = std::path::Path::new(a).join(b);
        assert_eq!(join_path(a, b), std_join.to_str().unwrap());
    }
}

#[test]
fn store_locations() {
    let m = LocalProjectManager::new("/cfg/kroco6".to_string());
    assert_eq!(m.projects_dir(), "/cfg/kroco6/projects");
    assert_eq!(m.project_path("shop"), "/cfg/kroco6/projects/shop");
    assert_eq!(m.project_config_path("shop"), "/cfg/kroco6/projects/shop/project_config.json");
    let e = EnvironmentManager::new("/cfg/kroco6".to_string());
    assert_eq!(e.file_path, "/cfg/kroco6/environments.json");
    assert_eq!(application_directory_in("/home/u/.config"), "/home/u/.config/kroco6");
}

#[test]
fn default_environment_file() {
    let d = default_environments();
    assert_eq!(d.active, "default");
    assert_eq!(d.environments.len(), 1);
    assert_eq!(d.environments[0].name, "default");
    assert_eq!(d.environments[0].description, "default environment");
    assert!(d.environments[0].variables.is_empty());
}

#[test]
fn configuration_and_state() {
    let c = Config::new(Some("tok"));
    assert_eq!(c.cloud_token.as_deref(), Some("tok"));
    assert!(c.tracked_project_paths.is_empty());
    assert!(Config::new(None).cloud_token.is_none());
    let mut s = NewState::default();
    s.register_project("/p/one".to_string());
    s.register_project("/p/two".to_string());
    assert_eq!(s.config.tracked_project_paths, vec!["/p/one", "/p/two"]);
    let mut st = State::with_storage("/cfg/kroco6");
    assert_eq!(st.project_manager.base_path, "/cfg/kroco6");
    assert_eq!(st.environment_manager.file_path, "/cfg/kroco6/environments.json");
    assert!(st.script.is_empty());
    st.set_script("export default function () {}");
    assert_eq!(st.script, "export default function () {}");
}

#[test]
fn project_tree_keeps_tests_and_directories() {
    assert_eq!(to_test_kind("js"), Some(TreeKind::Script));
    assert_eq!(to_test_kind("blk6"), Some(TreeKind::Blocks));
    assert_eq!(to_test_kind("json"), None);
    let sub = directory_entry("/r/sub".to_string(), vec![]);
    let listed = vec![
        ListedEntry::File { path: "/r/a.js".to_string(), extension: Some("js".to_string()) },
        ListedEntry::File { path: "/r/k6.json".to_string(), extension: Some("json".to_string()) },
        ListedEntry::Directory(sub),
        ListedEntry::File { path: "/r/README".to_string(), extension: None },
        ListedEntry::File { path: "/r/b.blk6".to_string(), extension: Some("blk6".to_string()) },
    ];
    match directory_entry("/r".to_string(), listed) {
        ProjectEntry::Directory { path, entries } => {
            assert_eq!(path, "/r");
            assert_eq!(entries.len(), 3);
            assert!(matches!(&entries[0], ProjectEntry::File { kind: TreeKind::Script, path } if path == "/r/a.js"));
            assert!(matches!(&entries[1], ProjectEntry::Directory { path, entries } if path == "/r/sub" && entries.is_empty()));
            assert!(matches!(&entries[2], ProjectEntry::File { kind: TreeKind::Blocks, path } if path == "/r/b.blk6"));
        }
        other => panic!("expected a directory, got {:?}", other),
    }
}

#[test]
fn project_settings_and_paths() {
    assert_eq!(default_project_settings().k6.version, "v0.49.0");
    assert_eq!(settings_file_path("/r"), "/r/k6.json");
    assert_eq!(installed_binary_relative_path("v0.50.0"), "k6-ui/binaries/k6/v0.50.0/k6");
    let (label, ext) = save_filter(TreeKind::Blocks);
    assert_eq!((label.as_str(), ext.as_str()), ("k6 Blocks Test", "blk6"));
    let (label, ext) = save_filter(TreeKind::Script);
    assert_eq!((label.as_str(), ext.as_str()), ("Script", "js"));
}
