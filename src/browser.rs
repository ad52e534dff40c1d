//! Telling the newly launched browser apart from browsers that already ran,
//! and the command line that routes it through the proxy.
//!
//! No API hands back the identifier of a detached browser launch, so the
//! caller snapshots the identifiers of the processes with the browser's
//! binary name before the launch and scans again until one appears that was
//! not there before.

use vstd::prelude::*;
use crate::text::join_text;

verus! {

/// The browser instance that this session launched.
#[derive(Clone, Copy, Debug, PartialEq, Eq, Structural)]
pub struct BrowserProcessRef {
    pub pid: u32,
    /// Monotonic time of the scan that found it.
    pub discovered_at: u64,
}

/// The first identifier of `now`, in scan order, that `before` lacks.
pub open spec fn first_new_pid(before: Seq<u32>, now: Seq<u32>) -> Option<u32>
    decreases now.len(),
{
    if now.len() == 0 {
        None
    } else if !before.contains(now[0]) {
        Some(now[0])
    } else {
        first_new_pid(before, now.drop_first())
    }
}

/// What `first_new_pid` finds is new, and where it finds nothing every
/// identifier was there before.
pub proof fn lemma_first_new_pid(before: Seq<u32>, now: Seq<u32>)
    ensures
        first_new_pid(before, now) matches Some(p) ==> now.contains(p) && !before.contains(p),
        first_new_pid(before, now) is None ==> forall|i: int|
            0 <= i < now.len() ==> before.contains(#[trigger] now[i]),
    decreases now.len(),
{
    if now.len() > 0 {
        lemma_first_new_pid(before, now.drop_first());
        if before.contains(now[0]) {
            if let Some(p) = first_new_pid(before, now.drop_first()) {
                let j = choose|j: int| 0 <= j < now.drop_first().len() && now.drop_first()[j] == p;
                assert(now[j + 1] == p);
            } else {
                assert forall|i: int| 0 <= i < now.len() implies before.contains(
                    #[trigger] now[i],
                ) by {
                    if i > 0 {
                        assert(now[i] == now.drop_first()[i - 1]);
                    }
                }
            }
        } else {
            assert(now[0] == now[0]);
        }
    }
}

/// Whether `pid` is in `pids`.
pub fn holds_pid(pids: &Vec<u32>, pid: u32) -> (r: bool)
    ensures
        r == pids@.contains(pid),
{
    let mut i: usize = 0;
    while i < pids.len()
        invariant
            i <= pids.len(),
            forall|k: int| 0 <= k < i ==> pids@[k] != pid,
        decreases pids.len() - i,
    {
        if pids[i] == pid {
            return true;
        }
        i = i + 1;
    }
    false
}

/// The first identifier of the scan `now` that was not in the snapshot
/// `before`, if there is one.
pub fn find_new_pid(before: &Vec<u32>, now: &Vec<u32>) -> (r: Option<u32>)
    ensures
        r == first_new_pid(before@, now@),
        r matches Some(p) ==> now@.contains(p) && !before@.contains(p),
        r is None ==> forall|i: int| 0 <= i < now@.len() ==> before@.contains(#[trigger] now@[i]),
{
    proof {
        lemma_first_new_pid(before@, now@);
    }
    let mut i: usize = 0;
    proof {
        assert(now@.subrange(0, now@.len() as int) =~= now@);
    }
    while i < now.len()
        invariant
            i <= now.len(),
            first_new_pid(before@, now@.subrange(i as int, now@.len() as int)) == first_new_pid(
                before@,
                now@,
            ),
        decreases now.len() - i,
    {
        let pid = now[i];
        if !holds_pid(before, pid) {
            return Some(pid);
        }
        proof {
            assert(now@.subrange(i as int, now@.len() as int).drop_first() =~= now@.subrange(
                i + 1,
                now@.len() as int,
            ));
        }
        i = i + 1;
    }
    None
}

/// The result of one scan for the launched browser.
#[derive(Clone, Copy, Debug, PartialEq, Eq, Structural)]
pub enum PollOutcome {
    /// The launched browser is identified.
    Found(BrowserProcessRef),
    /// Nothing new yet; scan again after the polling interval.
    KeepPolling,
    /// Nothing new by the deadline: the launch failed.
    TimedOut,
}

/// Decides one scan made at time `scanned_at`: the first new identifier is
/// the launched browser; without one, the search goes on until `deadline`.
pub fn next_poll(before: &Vec<u32>, now: &Vec<u32>, scanned_at: u64, deadline: u64) -> (r:
    PollOutcome)
    ensures
        match first_new_pid(before@, now@) {
            Some(p) => r == PollOutcome::Found(BrowserProcessRef { pid: p, discovered_at: scanned_at }),
            None => if scanned_at >= deadline {
                r is TimedOut
            } else {
                r is KeepPolling
            },
        },
{
    match find_new_pid(before, now) {
        Some(pid) => PollOutcome::Found(BrowserProcessRef { pid, discovered_at: scanned_at }),
        None => if scanned_at >= deadline {
            PollOutcome::TimedOut
        } else {
            PollOutcome::KeepPolling
        },
    }
}

/// The browser's command line: an isolated profile, the proxy's certificate
/// trusted by its fingerprint, all traffic through the proxy, background
/// chatter and first-run prompts suppressed, then the page to open.
pub fn browser_args(proxy_addr: &str, cert_fingerprint: &str, user_data_dir: &str, start_url: &str) -> (r:
    Vec<String>)
    ensures
        r@.len() == 8,
        r@[0]@ == "--user-data-dir="@ + user_data_dir@,
        r@[1]@ == "--ignore-certificate-errors-spki-list="@ + cert_fingerprint@,
        r@[2]@ == "--proxy-server="@ + proxy_addr@,
        r@[3]@ == "--hide-crash-restore-bubble"@,
        r@[4]@ == "--test-type"@,
        r@[5]@ == "--no-default-browser-check"@,
        r@[6]@ == "--no-first-run"@,
        r@[7]@ == start_url@,
{
    let mut r: Vec<String> = Vec::new();
    r.push(join_text("--user-data-dir=", user_data_dir));
    r.push(join_text("--ignore-certificate-errors-spki-list=", cert_fingerprint));
    r.push(join_text("--proxy-server=", proxy_addr));
    r.push(String::from_str("--hide-crash-restore-bubble"));
    r.push(String::from_str("--test-type"));
    r.push(String::from_str("--no-default-browser-check"));
    r.push(String::from_str("--no-first-run"));
    r.push(String::from_str(start_url));
    r
}

} // verus!
