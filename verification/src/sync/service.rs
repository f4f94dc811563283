//! Sync pairs: a named local folder kept in sync with a remote one.
use crate::text::{chars_eq_str, lower_ascii, owned, replace_chars, trimmed};
use crate::tooling::mutagen::SYNC_MODE_TWO_WAY_RESOLVED;
use vstd::prelude::*;

verus! {

#[derive(Debug, Clone, PartialEq, Eq)]
pub struct Pair {
    pub name: String,
    pub local: String,
    pub remote: String,
    pub mode: String,
}

/// The sync mode to use for a requested one.  Two-way-resolved is the only
/// mode the library supports, so every request, spelled any way or not made
/// at all, resolves to it.
pub fn normalize_mode(mode: Option<&str>) -> (r: String)
    ensures
        r@ == SYNC_MODE_TWO_WAY_RESOLVED@,
{
    match mode {
        None => owned(SYNC_MODE_TWO_WAY_RESOLVED),
        Some(raw) => {
            let normalized = replace_chars(&lower_ascii(&trimmed(raw)), '_', '-');
            if chars_eq_str(&normalized, SYNC_MODE_TWO_WAY_RESOLVED) {
                crate::text::string_of(&normalized)
            } else {
                owned(SYNC_MODE_TWO_WAY_RESOLVED)
            }
        },
    }
}

pub fn build_pair(name: &str, local: &str, remote: &str, mode: Option<&str>) -> (r: Pair)
    ensures
        r.name@ == name@,
        r.local@ == local@,
        r.remote@ == remote@,
        r.mode@ == SYNC_MODE_TWO_WAY_RESOLVED@,
{
    Pair { name: owned(name), local: owned(local), remote: owned(remote), mode: normalize_mode(mode) }
}

} // verus!
