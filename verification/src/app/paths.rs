//! Where the configuration, the state, the logs and the launch agents live
//! under a home directory.
use crate::text::owned;
use vstd::prelude::*;

verus! {

/// The files and directories of one user.  Each is a path string built from
/// the home directory the way `PathBuf::join` builds it.
#[derive(Debug, Clone, PartialEq, Eq)]
pub struct Paths {
    pub config_dir: String,
    pub config_file: String,
    pub state_dir: String,
    pub state_file: String,
    pub log_dir: String,
    pub launch_agents_dir: String,
    pub server_plist: String,
    pub client_plist: String,
}

/// `base` joined with the relative path `rest`: a separator goes between
/// them unless `base` is empty or already ends with one.
pub open spec fn path_join(base: Seq<char>, rest: Seq<char>) -> Seq<char> {
    if base.len() == 0 || base.last() == '/' {
        base + rest
    } else {
        base + "/"@ + rest
    }
}

pub fn join(base: &str, rest: &str) -> (r: String)
    ensures
        r@ == path_join(base@, rest@),
{
    let v = crate::text::chars_of(base);
    let mut r = owned(base);
    if v.len() > 0 && v[v.len() - 1] != '/' {
        r.append("/");
    }
    r.append(rest);
    r
}

impl Paths {
    pub fn new(home: String) -> (p: Paths)
        ensures
            p.config_dir@ == path_join(path_join(home@, ".config"@), "eternalmac"@),
            p.config_file@ == path_join(p.config_dir@, "config.toml"@),
            p.state_dir@ == path_join(
                path_join(path_join(home@, "Library"@), "Application Support"@),
                "eternalmac"@,
            ),
            p.state_file@ == path_join(p.state_dir@, "state.json"@),
            p.log_dir@ == path_join(path_join(path_join(home@, "Library"@), "Logs"@), "eternalmac"@),
            p.launch_agents_dir@ == path_join(path_join(home@, "Library"@), "LaunchAgents"@),
            p.server_plist@ == path_join(p.launch_agents_dir@, "com.eternalmac.server.plist"@),
            p.client_plist@ == path_join(p.launch_agents_dir@, "com.eternalmac.client.plist"@),
    {
        let config_dir = join(join(home.as_str(), ".config").as_str(), "eternalmac");
        let library = join(home.as_str(), "Library");
        let state_dir = join(join(library.as_str(), "Application Support").as_str(), "eternalmac");
        let log_dir = join(join(library.as_str(), "Logs").as_str(), "eternalmac");
        let launch_agents_dir = join(library.as_str(), "LaunchAgents");
        Paths {
            config_file: join(config_dir.as_str(), "config.toml"),
            config_dir,
            state_file: join(state_dir.as_str(), "state.json"),
            state_dir,
            log_dir,
            server_plist: join(launch_agents_dir.as_str(), "com.eternalmac.server.plist"),
            client_plist: join(launch_agents_dir.as_str(), "com.eternalmac.client.plist"),
            launch_agents_dir,
        }
    }
}

} // verus!
