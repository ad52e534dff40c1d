use kroco6::cloud::{
    authorization_value, cloud_credentials, cloud_run_url, cloud_tests_url, first_run_url,
};
use kroco6::executable::{archive_suffix, download_url, is_tarball};
use kroco6::models::ProjectConfig;

#[test]
fn run_link_is_found_in_tool_output() {
    assert_eq!(
        cloud_run_url("     output: https://app.k6.io/runs/123 (more)"),
        Some("https://app.k6.io/runs/123".to_string())
    );
    assert_eq!(cloud_run_url("output: http://x.test/a?b=c"), Some("http://x.test/a?b=c".to_string()));
    assert_eq!(cloud_run_url("output: -"), None);
    assert_eq!(cloud_run_url("execution: local"), None);
}

#[test]
fn first_link_wins() {
    let found = vec![None, Some("https://a".to_string()), Some("https://b".to_string())];
    assert_eq!(first_run_url(&found), Some("https://a".to_string()));
    assert_eq!(first_run_url(&vec![None, None]), None);
    assert_eq!(first_run_url(&vec![]), None);
}

#[test]
fn cloud_request_parts() {
    assert_eq!(
        cloud_tests_url("42"),
        "https://api.k6.io/loadtests/v2/tests?$select=id,name,project_id,script&project_id=42"
    );
    assert_eq!(authorization_value("abc"), "Token abc");
}

#[test]
fn cloud_credentials_need_token_and_project() {
    let mut c = ProjectConfig::new();
    assert_eq!(cloud_credentials(&c), Err("missing cloud_token/cloud_project_id config".to_string()));
    c.cloud_token = Some("t".to_string());
    assert!(cloud_credentials(&c).is_err());
    c.cloud_project_id = Some("7".to_string());
    assert_eq!(cloud_credentials(&c), Ok(("t".to_string(), "7".to_string())));
}

#[test]
fn release_archives_per_platform() {
    assert_eq!(archive_suffix("macos", "aarch64").as_deref(), Some("macos-arm64.zip"));
    assert_eq!(archive_suffix("macos", "x86_64").as_deref(), Some("macos-amd64.zip"));
    assert_eq!(archive_suffix("windows", "x86_64").as_deref(), Some("windows-amd64.zip"));
    assert_eq!(archive_suffix("linux", "aarch64").as_deref(), Some("linux-arm64.tar.gz"));
    assert_eq!(archive_suffix("linux", "x86_64").as_deref(), Some("linux-amd64.tar.gz"));
    assert_eq!(archive_suffix("freebsd", "x86_64"), None);
    assert_eq!(
        download_url("linux-amd64.tar.gz"),
        "https://github.com/grafana/k6/releases/download/v0.50.0/k6-v0.50.0-linux-amd64.tar.gz"
    );
    assert!(is_tarball("linux-amd64.tar.gz"));
    assert!(!is_tarball("macos-arm64.zip"));
}
