use kroco6::browser::{browser_args, find_new_pid, holds_pid, next_poll, BrowserProcessRef, PollOutcome};
use kroco6::process::{parse_ps_line, pids_named, ProcessEntry};
use kroco6::proxy::proxy_args;

#[test]
fn new_pid_is_the_first_absent_from_the_snapshot() {
    assert_eq!(find_new_pid(&vec![5, 9], &vec![9, 12, 5, 13]), Some(12));
    assert_eq!(find_new_pid(&vec![5, 9], &vec![9, 5]), None);
    assert_eq!(find_new_pid(&vec![], &vec![3]), Some(3));
    assert_eq!(find_new_pid(&vec![1], &vec![]), None);
}

#[test]
fn poll_finds_the_browser_with_its_scan_time() {
    assert_eq!(
        next_poll(&vec![5], &vec![5, 6], 40_000, 30_000),
        PollOutcome::Found(BrowserProcessRef { pid: 6, discovered_at: 40_000 })
    );
    assert_eq!(next_poll(&vec![5], &vec![5], 29_999, 30_000), PollOutcome::KeepPolling);
    assert_eq!(next_poll(&vec![5], &vec![5], 30_001, 30_000), PollOutcome::TimedOut);
}

#[test]
fn holds_pid_searches_the_whole_list() {
    assert!(holds_pid(&vec![1, 2, 3], 3));
    assert!(!holds_pid(&vec![1, 2, 3], 4));
}

#[test]
fn sweep_targets_every_process_of_the_name_in_order() {
    let table = vec![
        ProcessEntry::new(30, "mitmdump"),
        ProcessEntry::new(31, "mitmdump-helper"),
        ProcessEntry::new(12, "mitmdump"),
        ProcessEntry::new(40, "chrome"),
    ];
    assert_eq!(pids_named(&table, "mitmdump"), vec![30, 12]);
    assert_eq!(pids_named(&table, "chrome"), vec![40]);
    assert!(pids_named(&table, "firefox").is_empty());
    assert!(pids_named(&vec![], "mitmdump").is_empty());
}

#[test]
fn sweep_still_finds_the_proxy_when_its_kill_failed() {
    let table = vec![ProcessEntry::new(100, "mitmdump"), ProcessEntry::new(101, "mitmdump")];
    assert_eq!(pids_named(&table, "mitmdump"), vec![100, 101]);
}

#[test]
fn browser_command_line() {
    let args = browser_args("http://localhost:8080", "abc=", "/tmp/kroco6", "https://grafana.com");
    assert_eq!(
        args,
        vec![
            "--user-data-dir=/tmp/kroco6",
            "--ignore-certificate-errors-spki-list=abc=",
            "--proxy-server=http://localhost:8080",
            "--hide-crash-restore-bubble",
            "--test-type",
            "--no-default-browser-check",
            "--no-first-run",
            "https://grafana.com",
        ]
    );
}

#[test]
fn proxy_command_line() {
    assert_eq!(
        proxy_args("/res/json_output.py", "/res/certificates"),
        vec!["-q", "-s", "/res/json_output.py", "--set", "confdir=/res/certificates"]
    );
}

fn listed(line: &str) -> Option<(u32, String)> {
    parse_ps_line(line).map(|e| (e.pid, e.name))
}

#[test]
fn process_listing_lines() {
    assert_eq!(listed("    1 init"), Some((1, "init".to_string())));
    assert_eq!(listed("4321 /usr/bin/chromium"), Some((4321, "chromium".to_string())));
    assert_eq!(
        listed(" 77\t/Applications/Google Chrome.app/Contents/MacOS/Google Chrome"),
        Some((77, "Google Chrome".to_string()))
    );
    assert_eq!(listed("12 mitmdump --quiet"), Some((12, "mitmdump --quiet".to_string())));
    assert_eq!(listed("4294967295 x"), Some((4294967295, "x".to_string())));
}

#[test]
fn process_listing_rejects_other_shapes() {
    assert_eq!(listed(""), None);
    assert_eq!(listed("   "), None);
    assert_eq!(listed("init"), None);
    assert_eq!(listed("12"), None);
    assert_eq!(listed("12   "), None);
    assert_eq!(listed("12x init"), None);
    assert_eq!(listed("4294967296 x"), None);
    assert_eq!(listed("99999999999999999999 x"), None);
}
