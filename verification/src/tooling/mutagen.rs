//! Mutagen command lines and the session listing that `mutagen sync list`
//! prints.
use crate::model::config::opt_view;
use crate::text::{
    chars_eq_str, chars_of, lines, owned, split_lines, starts_with, string_of, string_views,
    strip_prefix, trim, trim_chars, views,
};
use vstd::prelude::*;

verus! {

/// The one sync mode that the library creates and records.
pub const SYNC_MODE_TWO_WAY_RESOLVED: &'static str = "two-way-resolved";

/// A sync session as `mutagen sync list` describes it.
#[derive(Debug, Clone, PartialEq, Eq)]
pub struct ListedSession {
    pub name: String,
    pub identifier: Option<String>,
    pub alpha_url: Option<String>,
    pub beta_url: Option<String>,
    pub status: Option<String>,
}

pub struct ListedView {
    pub name: Seq<char>,
    pub identifier: Option<Seq<char>>,
    pub alpha_url: Option<Seq<char>>,
    pub beta_url: Option<Seq<char>>,
    pub status: Option<Seq<char>>,
}

impl View for ListedSession {
    type V = ListedView;

    open spec fn view(&self) -> ListedView {
        ListedView {
            name: self.name@,
            identifier: opt_view(self.identifier),
            alpha_url: opt_view(self.alpha_url),
            beta_url: opt_view(self.beta_url),
            status: opt_view(self.status),
        }
    }
}

pub open spec fn listed_views(v: Seq<ListedSession>) -> Seq<ListedView> {
    v.map_values(|s: ListedSession| s@)
}

pub fn build_create_args(name: &str, local: &str, remote: &str) -> (r: Vec<String>)
    ensures
        string_views(r@) == seq![
            "sync"@,
            "create"@,
            "--name"@,
            name@,
            "--sync-mode"@,
            SYNC_MODE_TWO_WAY_RESOLVED@,
            local@,
            remote@,
        ],
{
    let r = vec![
        owned("sync"),
        owned("create"),
        owned("--name"),
        owned(name),
        owned("--sync-mode"),
        owned(SYNC_MODE_TWO_WAY_RESOLVED),
        owned(local),
        owned(remote),
    ];
    assert(string_views(r@) =~= seq![
        "sync"@,
        "create"@,
        "--name"@,
        name@,
        "--sync-mode"@,
        SYNC_MODE_TWO_WAY_RESOLVED@,
        local@,
        remote@,
    ]);
    r
}

pub fn list_args() -> (r: Vec<String>)
    ensures
        string_views(r@) == seq!["sync"@, "list"@],
{
    let r = vec![owned("sync"), owned("list")];
    assert(string_views(r@) =~= seq!["sync"@, "list"@]);
    r
}

/// Which endpoint block of a session the listing is in.
#[derive(Debug, Clone, Copy, PartialEq, Eq, Structural)]
pub enum Endpoint {
    Alpha,
    Beta,
}

/// Where the reading of a listing stands: the sessions finished so far,
/// the session being read, and the endpoint block being read.
pub struct ListingView {
    pub sessions: Seq<ListedView>,
    pub current: Option<ListedView>,
    pub section: Option<Endpoint>,
}

/// The trimmed text of `line` after the prefix `p`.
pub open spec fn after(line: Seq<char>, p: Seq<char>) -> Seq<char> {
    trim(line.subrange(p.len() as int, line.len() as int))
}

/// The finished sessions with the one being read closed.
pub open spec fn flushed(st: ListingView) -> Seq<ListedView> {
    match st.current {
        Some(c) => st.sessions.push(c),
        None => st.sessions,
    }
}

/// Reading one line of the listing.  A blank line ends an endpoint block; a
/// `Name:` line closes the session being read and opens a new one; lines
/// before the first `Name:` are ignored; `Identifier:` and `Status:` set
/// those fields; `Alpha:` and `Beta:` open an endpoint block whose `URL:`
/// line sets that endpoint's URL.
pub open spec fn listing_step(st: ListingView, raw: Seq<char>) -> ListingView {
    let line = trim(raw);
    if line.len() == 0 {
        ListingView { sessions: st.sessions, current: st.current, section: None }
    } else if starts_with(line, "Name:"@) {
        ListingView {
            sessions: flushed(st),
            current: Some(
                ListedView {
                    name: after(line, "Name:"@),
                    identifier: None,
                    alpha_url: None,
                    beta_url: None,
                    status: None,
                },
            ),
            section: None,
        }
    } else {
        match st.current {
            None => st,
            Some(c) => if starts_with(line, "Identifier:"@) {
                ListingView {
                    sessions: st.sessions,
                    current: Some(ListedView { identifier: Some(after(line, "Identifier:"@)), ..c }),
                    section: st.section,
                }
            } else if starts_with(line, "Status:"@) {
                ListingView {
                    sessions: st.sessions,
                    current: Some(ListedView { status: Some(after(line, "Status:"@)), ..c }),
                    section: st.section,
                }
            } else if line == "Alpha:"@ {
                ListingView { sessions: st.sessions, current: st.current, section: Some(Endpoint::Alpha) }
            } else if line == "Beta:"@ {
                ListingView { sessions: st.sessions, current: st.current, section: Some(Endpoint::Beta) }
            } else if starts_with(line, "URL:"@) {
                match st.section {
                    Some(Endpoint::Alpha) => ListingView {
                        sessions: st.sessions,
                        current: Some(ListedView { alpha_url: Some(after(line, "URL:"@)), ..c }),
                        section: st.section,
                    },
                    Some(Endpoint::Beta) => ListingView {
                        sessions: st.sessions,
                        current: Some(ListedView { beta_url: Some(after(line, "URL:"@)), ..c }),
                        section: st.section,
                    },
                    None => st,
                }
            } else {
                st
            },
        }
    }
}

/// The reading state after the lines `ls`.
pub open spec fn listing_after(ls: Seq<Seq<char>>) -> ListingView
    decreases ls.len(),
{
    if ls.len() == 0 {
        ListingView { sessions: Seq::empty(), current: None, section: None }
    } else {
        listing_step(listing_after(ls.drop_last()), ls.last())
    }
}

/// The sessions of a whole listing.
pub open spec fn listed_sessions(output: Seq<char>) -> Seq<ListedView> {
    flushed(listing_after(lines(output)))
}

struct Listing {
    sessions: Vec<ListedSession>,
    current: Option<ListedSession>,
    section: Option<Endpoint>,
}

impl Listing {
    spec fn view(&self) -> ListingView {
        ListingView {
            sessions: listed_views(self.sessions@),
            current: match self.current {
                Some(c) => Some(c@),
                None => None,
            },
            section: self.section,
        }
    }
}

fn flush(sessions: &mut Vec<ListedSession>, current: Option<ListedSession>)
    ensures
        listed_views(final(sessions)@) == match current {
            Some(c) => listed_views(old(sessions)@).push(c@),
            None => listed_views(old(sessions)@),
        },
{
    match current {
        Some(c) => {
            let ghost before = listed_views(sessions@);
            sessions.push(c);
            assert(listed_views(sessions@) =~= before.push(c@));
        },
        None => {},
    }
}

fn trimmed_rest(line: &Vec<char>, p: &str) -> (r: Option<String>)
    ensures
        r is Some <==> starts_with(line@, p@),
        r is Some ==> r->0@ == after(line@, p@),
{
    match strip_prefix(line, p) {
        Some(rest) => Some(string_of(&trim_chars(&rest))),
        None => None,
    }
}

fn read_line(st: Listing, raw: &Vec<char>) -> (r: Listing)
    ensures
        r.view() == listing_step(st.view(), raw@),
{
    let ghost sv = st.view();
    let line = trim_chars(raw);
    if line.len() == 0 {
        return Listing { sessions: st.sessions, current: st.current, section: None };
    }
    if let Some(name) = trimmed_rest(&line, "Name:") {
        let mut sessions = st.sessions;
        flush(&mut sessions, st.current);
        let fresh = ListedSession {
            name,
            identifier: None,
            alpha_url: None,
            beta_url: None,
            status: None,
        };
        return Listing { sessions, current: Some(fresh), section: None };
    }
    let Listing { sessions, current, section } = st;
    match current {
        None => Listing { sessions, current: None, section },
        Some(c) => {
            let ListedSession { name, identifier, alpha_url, beta_url, status } = c;
            if let Some(id) = trimmed_rest(&line, "Identifier:") {
                let cur = ListedSession { name, identifier: Some(id), alpha_url, beta_url, status };
                return Listing { sessions, current: Some(cur), section };
            }
            if let Some(st_text) = trimmed_rest(&line, "Status:") {
                let cur = ListedSession { name, identifier, alpha_url, beta_url, status: Some(st_text) };
                return Listing { sessions, current: Some(cur), section };
            }
            let cur = ListedSession { name, identifier, alpha_url, beta_url, status };
            if chars_eq_str(&line, "Alpha:") {
                return Listing { sessions, current: Some(cur), section: Some(Endpoint::Alpha) };
            }
            if chars_eq_str(&line, "Beta:") {
                return Listing { sessions, current: Some(cur), section: Some(Endpoint::Beta) };
            }
            if let Some(url) = trimmed_rest(&line, "URL:") {
                let ListedSession { name, identifier, alpha_url, beta_url, status } = cur;
                match section {
                    Some(Endpoint::Alpha) => {
                        let cur = ListedSession { name, identifier, alpha_url: Some(url), beta_url, status };
                        return Listing { sessions, current: Some(cur), section };
                    },
                    Some(Endpoint::Beta) => {
                        let cur = ListedSession { name, identifier, alpha_url, beta_url: Some(url), status };
                        return Listing { sessions, current: Some(cur), section };
                    },
                    None => {
                        let cur = ListedSession { name, identifier, alpha_url, beta_url, status };
                        return Listing { sessions, current: Some(cur), section };
                    },
                }
            }
            Listing { sessions, current: Some(cur), section }
        },
    }
}

/// The sessions that `mutagen sync list` printed, in order.
pub fn parse_list_output(output: &str) -> (r: Vec<ListedSession>)
    ensures
        listed_views(r@) == listed_sessions(output@),
{
    let text = chars_of(output);
    let ls = split_lines(&text);
    let ghost lv = views(ls@);
    let mut st = Listing { sessions: Vec::new(), current: None, section: None };
    assert(listed_views(st.sessions@) =~= Seq::<ListedView>::empty());
    let mut i: usize = 0;
    while i < ls.len()
        invariant
            i <= ls.len(),
            lv == views(ls@),
            st.view() == listing_after(lv.take(i as int)),
        decreases ls.len() - i,
    {
        assert(lv.take(i + 1).drop_last() =~= lv.take(i as int));
        assert(lv[i as int] == ls@[i as int]@);
        st = read_line(st, &ls[i]);
        i = i + 1;
    }
    assert(lv.take(ls.len() as int) =~= lv);
    let Listing { sessions, current, section: _ } = st;
    let mut sessions = sessions;
    flush(&mut sessions, current);
    sessions
}

} // verus!
