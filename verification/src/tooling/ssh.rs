//! Probing the SSH port that Remote Login opens.
use crate::text::{owned, string_views};
use vstd::prelude::*;

verus! {

/// `nc` arguments that wait at most five seconds for the SSH port of `host`
/// to accept a connection, without sending anything.
pub fn port_probe_args(host: &str) -> (r: Vec<String>)
    ensures
        string_views(r@) == seq!["-G"@, "5"@, "-z"@, host@, "22"@],
{
    let r = vec![owned("-G"), owned("5"), owned("-z"), owned(host), owned("22")];
    assert(string_views(r@) =~= seq!["-G"@, "5"@, "-z"@, host@, "22"@]);
    r
}

} // verus!
