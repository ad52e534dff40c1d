//! The proxy's command line.

use vstd::prelude::*;
use crate::text::join_text;

verus! {

/// The proxy's arguments: quiet, the traffic-transform script, and the
/// directory of its certificate authority.
pub fn proxy_args(script_path: &str, cert_dir: &str) -> (r: Vec<String>)
    ensures
        r@.len() == 5,
        r@[0]@ == "-q"@,
        r@[1]@ == "-s"@,
        r@[2]@ == script_path@,
        r@[3]@ == "--set"@,
        r@[4]@ == "confdir="@ + cert_dir@,
{
    let mut r: Vec<String> = Vec::new();
    r.push(String::from_str("-q"));
    r.push(String::from_str("-s"));
    r.push(String::from_str(script_path));
    r.push(String::from_str("--set"));
    r.push(join_text("confdir=", cert_dir));
    r
}

} // verus!
