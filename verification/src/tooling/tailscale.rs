//! Tailscale: which installation is present, its status, and its command
//! lines.
use crate::text::{chars_of, contains, contains_str, ends_with, has_suffix, owned, string_views};
use vstd::prelude::*;

verus! {

#[derive(Debug, Clone, Copy, PartialEq, Eq, Structural)]
pub enum Variant {
    Standalone,
    AppStore,
    OpenSource,
    Unknown,
}

/// What `tailscale status --json` reports that the library reads.
#[derive(Debug, Clone, PartialEq, Eq)]
pub struct Status {
    pub backend_state: String,
    pub dns_name: Option<String>,
}

pub open spec fn any_ends_with(apps: Seq<Seq<char>>, p: Seq<char>) -> bool {
    exists|i: int| 0 <= i < apps.len() && #[trigger] ends_with(apps[i], p)
}

pub open spec fn any_contains(apps: Seq<Seq<char>>, p: Seq<char>) -> bool {
    exists|i: int| 0 <= i < apps.len() && #[trigger] contains(apps[i], p)
}

/// The installation that a list of installed application paths shows: the
/// standalone app bundle first, then the App Store app, then the open-source
/// daemon.
pub open spec fn variant_of(apps: Seq<Seq<char>>) -> Variant {
    if any_ends_with(apps, "/Applications/Tailscale.app"@) {
        Variant::Standalone
    } else if any_contains(apps, "Tailscale (App Store)"@) {
        Variant::AppStore
    } else if any_contains(apps, "tailscaled"@) {
        Variant::OpenSource
    } else {
        Variant::Unknown
    }
}

fn some_ends_with(apps: &[String], p: &str) -> (r: bool)
    ensures
        r == any_ends_with(string_views(apps@), p@),
{
    let mut i: usize = 0;
    while i < apps.len()
        invariant
            i <= apps.len(),
            forall|k: int| 0 <= k < i ==> !#[trigger] ends_with(string_views(apps@)[k], p@),
        decreases apps.len() - i,
    {
        let v = chars_of(apps[i].as_str());
        if has_suffix(&v, p) {
            assert(ends_with(string_views(apps@)[i as int], p@));
            return true;
        }
        i = i + 1;
    }
    false
}

fn some_contains(apps: &[String], p: &str) -> (r: bool)
    ensures
        r == any_contains(string_views(apps@), p@),
{
    let mut i: usize = 0;
    while i < apps.len()
        invariant
            i <= apps.len(),
            forall|k: int| 0 <= k < i ==> !#[trigger] contains(string_views(apps@)[k], p@),
        decreases apps.len() - i,
    {
        let v = chars_of(apps[i].as_str());
        if contains_str(&v, p) {
            assert(contains(string_views(apps@)[i as int], p@));
            return true;
        }
        i = i + 1;
    }
    false
}

pub fn detect_variant(installed_apps: &[String]) -> (r: Variant)
    ensures
        r == variant_of(string_views(installed_apps@)),
{
    if some_ends_with(installed_apps, "/Applications/Tailscale.app") {
        return Variant::Standalone;
    }
    if some_contains(installed_apps, "Tailscale (App Store)") {
        return Variant::AppStore;
    }
    if some_contains(installed_apps, "tailscaled") {
        return Variant::OpenSource;
    }
    Variant::Unknown
}

pub fn status_args() -> (r: Vec<String>)
    ensures
        string_views(r@) == seq!["status"@, "--json"@],
{
    let r = vec![owned("status"), owned("--json")];
    assert(string_views(r@) =~= seq!["status"@, "--json"@]);
    r
}

pub fn login_args() -> (r: Vec<String>)
    ensures
        string_views(r@) == seq!["login"@],
{
    let r = vec![owned("login")];
    assert(string_views(r@) =~= seq!["login"@]);
    r
}

} // verus!
