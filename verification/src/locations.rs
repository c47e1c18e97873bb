//! Where the repositories of a run lie. The environment is read by the
//! caller; what it says comes in as arguments.

use vstd::prelude::*;
use crate::outside::{join_path, path_join};
use crate::repo::{is_temp_name, Repo};
use crate::text::concat2;

verus! {

/// The directory under which the repositories of runs are made: what
/// `XDG_STATE_HOME` names, or `.cache/flatrun/` in the home directory.
pub open spec fn temp_parent_of(state_home: Option<String>, home: Seq<char>) -> Seq<char> {
    match state_home {
        Some(dir) => dir@,
        None => home + "/.cache/flatrun/"@,
    }
}

/// The repository of the runtimes: `deps` under what `XDG_DATA_HOME` names,
/// or under `.local/share/flatrun` in the home directory. It keeps its place
/// from run to run, so that a runtime is installed once.
pub open spec fn deps_repo_of(data_home: Option<String>, home: Seq<char>) -> Seq<char> {
    path_join(
        match data_home {
            Some(dir) => dir@,
            None => home + "/.local/share/flatrun"@,
        },
        "deps"@,
    )
}

/// The cache directory: what `XDG_CACHE_HOME` names, or `.cache` in the home
/// directory.
pub open spec fn cache_root_of(cache_home: Option<String>, home: Seq<char>) -> Seq<char> {
    match cache_home {
        Some(dir) => dir@,
        None => path_join(home, ".cache"@),
    }
}

/// The directory under which the repositories of runs are made.
pub fn temp_parent(state_home: Option<String>, home: &str) -> (dir: String)
    ensures
        dir@ == temp_parent_of(state_home, home@),
{
    match state_home {
        Some(dir) => dir,
        None => concat2(home, "/.cache/flatrun/"),
    }
}

/// The repository of the runtimes.
pub fn deps_repo(data_home: Option<String>, home: &str) -> (dir: String)
    ensures
        dir@ == deps_repo_of(data_home, home@),
{
    let base = match data_home {
        Some(dir) => dir,
        None => concat2(home, "/.local/share/flatrun"),
    };
    join_path(base.as_str(), "deps")
}

/// The cache directory.
pub fn cache_root(cache_home: Option<String>, home: &str) -> (dir: String)
    ensures
        dir@ == cache_root_of(cache_home, home@),
{
    match cache_home {
        Some(dir) => dir,
        None => join_path(home, ".cache"),
    }
}

/// The two repositories of a run: a new one for the run itself, under a fresh
/// name in the directory for such, and the one of the runtimes. The caller
/// sees to it that the directory for the first and the second itself exist.
pub fn get_repos(state_home: Option<String>, data_home: Option<String>, home: &str) -> (r: (
    String,
    String,
))
    ensures
        exists|name: Seq<char>|
            is_temp_name(name) && r.0@ == #[trigger] path_join(
                temp_parent_of(state_home, home@),
                name,
            ),
        r.1@ == deps_repo_of(data_home, home@),
{
    let parent = temp_parent(state_home, home);
    let temp = match Repo::temp_in(parent) {
        Repo::Temp(path) => path,
        _ => String::new(),
    };
    (temp, deps_repo(data_home, home))
}

} // verus!
