//! Talking to the cloud service: the request it expects for a listing of
//! tests, and the link to a run that the load-testing tool prints.

use vstd::prelude::*;
use crate::models::ProjectConfig;
use crate::text::join_text;

verus! {

/// What group 1 of the leftmost match of `pattern` in `text` holds, as the
/// regex crate finds it; nothing where the pattern does not compile.
pub uninterp spec fn regex_group_one(pattern: Seq<char>, text: Seq<char>) -> Option<Seq<char>>;

/// Relies on regex::Regex::new and Regex::captures: the text of capture
/// group 1 of the leftmost match, a function of the pattern and the text.
#[verifier::external_body]
fn capture_group_one(pattern: &str, text: &str) -> (r: Option<String>)
    ensures
        match r {
            Some(g) => regex_group_one(pattern@, text@) == Some(g@),
            None => regex_group_one(pattern@, text@) is None,
        },
{
    match regex::Regex::new(pattern) {
        Ok(re) => re.captures(text).and_then(|c| c.get(1)).map(|m| m.as_str().to_string()),
        Err(_) => None,
    }
}

/// The line that the load-testing tool prints with the link to a cloud run.
pub open spec fn run_link_pattern() -> Seq<char> {
    "output: (https?://[^\\s]+)"@
}

/// The link to the cloud run that a line of the tool's output announces.
pub fn cloud_run_url(line: &str) -> (r: Option<String>)
    ensures
        match r {
            Some(u) => regex_group_one(run_link_pattern(), line@) == Some(u@),
            None => regex_group_one(run_link_pattern(), line@) is None,
        },
{
    capture_group_one("output: (https?://[^\\s]+)", line)
}

/// The first link among the links found in each line of the output, in
/// output order.
pub fn first_run_url(found: &Vec<Option<String>>) -> (r: Option<String>)
    ensures
        match r {
            Some(u) => exists|i: int|
                0 <= i < found@.len() && found@[i] == Some(u) && forall|j: int|
                    0 <= j < i ==> (#[trigger] found@[j]) is None,
            None => forall|j: int| 0 <= j < found@.len() ==> (#[trigger] found@[j]) is None,
        },
{
    let mut i: usize = 0;
    while i < found.len()
        invariant
            i <= found@.len(),
            forall|j: int| 0 <= j < i ==> (#[trigger] found@[j]) is None,
        decreases found.len() - i,
    {
        match &found[i] {
            Some(u) => {
                let link = u.clone();
                proof {
                    assert(found@[i as int] == Some(link));
                }
                return Some(link);
            },
            None => {},
        }
        i = i + 1;
    }
    None
}

/// The address that lists the tests of a cloud project.
pub fn cloud_tests_url(cloud_project_id: &str) -> (r: String)
    ensures
        r@ == "https://api.k6.io/loadtests/v2/tests?$select=id,name,project_id,script&project_id="@
            + cloud_project_id@,
{
    join_text(
        "https://api.k6.io/loadtests/v2/tests?$select=id,name,project_id,script&project_id=",
        cloud_project_id,
    )
}

/// The value of the authorization header for a token.
pub fn authorization_value(cloud_token: &str) -> (r: String)
    ensures
        r@ == "Token "@ + cloud_token@,
{
    join_text("Token ", cloud_token)
}

/// The message when a project lacks what the cloud service needs.
pub open spec fn missing_cloud_config() -> Seq<char> {
    "missing cloud_token/cloud_project_id config"@
}

/// The token and the cloud project of a project's settings; both are needed.
pub fn cloud_credentials(config: &ProjectConfig) -> (r: Result<(String, String), String>)
    ensures
        match (config.cloud_token, config.cloud_project_id) {
            (Some(t), Some(p)) => r matches Ok(c) && c.0@ == t@ && c.1@ == p@,
            _ => r matches Err(m) && m@ == missing_cloud_config(),
        },
{
    match (&config.cloud_token, &config.cloud_project_id) {
        (Some(t), Some(p)) => Ok((String::from_str(t.as_str()), String::from_str(p.as_str()))),
        _ => Err(String::from_str("missing cloud_token/cloud_project_id config")),
    }
}

} // verus!
