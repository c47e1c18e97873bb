//! The repository of a run: where it lies, who owns it, and when it goes.
//!
//! A temporary repository belongs to the one run that made it. Its directory
//! is not made here: the packaging engine makes it on the first write. The
//! handle hands the directory out for deletion once, and never again.

use vstd::prelude::*;
use crate::outside::{is_alphanumeric, join_path, path_join, sample_alphanumeric};

verus! {

/// How many random characters the name of a temporary repository ends in.
pub const TEMP_NAME_RANDOM_LEN: usize = 7;

/// A package repository.
#[derive(Clone, Debug, PartialEq, Eq)]
pub enum Repo {
    /// A repository for one run, at the given path. Its directory is deleted
    /// when the run ends: give only a path that may be deleted.
    Temp(String),
    /// The repository of the whole system.
    System,
    /// The repository of the user.
    User,
    /// A repository that outlives the run. `user` tells whether it is set up
    /// as a user's or as the system's.
    Static { path: String, user: bool },
}

/// What the packaging engine is asked to open for a repository.
#[derive(Clone, Debug, PartialEq, Eq)]
pub enum InstallationRequest {
    /// The installation at a path, as a user's or as the system's.
    ForPath { path: String, user: bool },
    /// The system's default installation.
    System,
    /// The user's default installation.
    User,
}

/// The name of the directory of a temporary repository: `.tmp` and then seven
/// letters or digits.
pub open spec fn is_temp_name(name: Seq<char>) -> bool {
    &&& name.len() == 4 + TEMP_NAME_RANDOM_LEN
    &&& name.subrange(0, 4) == ".tmp"@
    &&& forall|i: int| 4 <= i < name.len() ==> is_alphanumeric(#[trigger] name[i])
}

impl Default for Repo {
    /// The system's repository.
    fn default() -> (r: Repo)
        ensures
            r == Repo::System,
    {
        Repo::System
    }
}

impl Repo {
    /// The path and the scope that the engine opens for this repository.
    pub open spec fn request_of(self) -> InstallationRequest {
        match self {
            Repo::Temp(path) => InstallationRequest::ForPath { path, user: true },
            Repo::Static { path, user } => InstallationRequest::ForPath { path, user },
            Repo::System => InstallationRequest::System,
            Repo::User => InstallationRequest::User,
        }
    }

    /// The directory that goes when the repository is torn down.
    pub open spec fn owned_path(self) -> Option<String> {
        match self {
            Repo::Temp(path) => Some(path),
            _ => None,
        }
    }

    /// A fresh name for the directory of a temporary repository. The random
    /// part is drawn anew at each call.
    pub fn temp_name() -> (name: String)
        ensures
            is_temp_name(name@),
    {
        proof {
            reveal_strlit(".tmp");
        }
        let mut name = ".tmp".to_owned();
        let mut i: usize = 0;
        while i < TEMP_NAME_RANDOM_LEN
            invariant
                i <= TEMP_NAME_RANDOM_LEN,
                name@.len() == 4 + i,
                name@.subrange(0, 4) == ".tmp"@,
                forall|j: int| 4 <= j < name@.len() ==> is_alphanumeric(#[trigger] name@[j]),
            decreases TEMP_NAME_RANDOM_LEN - i,
        {
            let c = sample_alphanumeric();
            let ghost before = name@;
            name.push(c);
            assert(name@.subrange(0, 4) =~= before.subrange(0, 4));
            i += 1;
        }
        name
    }

    /// The temporary repository in the directory `name` under `path`.
    pub fn temp_named(path: &str, name: &str) -> (r: Repo)
        ensures
            r matches Repo::Temp(p) && p@ == path_join(path@, name@),
    {
        Repo::Temp(join_path(path, name))
    }

    /// A new temporary repository under `temp_dir`, the system's directory
    /// for temporary files.
    pub fn temp(temp_dir: String) -> (r: Repo)
        ensures
            r matches Repo::Temp(p) && exists|name: Seq<char>|
                is_temp_name(name) && p@ == #[trigger] path_join(temp_dir@, name),
    {
        Self::temp_in(temp_dir)
    }

    /// A new temporary repository under `path`, in a directory with a fresh
    /// name. Nothing is looked up on disk: that no such directory exists yet is
    /// left to the width of the random part.
    pub fn temp_in(path: String) -> (r: Repo)
        ensures
            r matches Repo::Temp(p) && exists|name: Seq<char>|
                is_temp_name(name) && p@ == #[trigger] path_join(path@, name),
    {
        let name = Self::temp_name();
        Self::temp_named(path.as_str(), name.as_str())
    }

    /// What the engine is asked to open: a temporary repository is opened as
    /// a user's, a static one as it says, the other two by their defaults.
    pub fn installation_request(&self) -> (r: InstallationRequest)
        ensures
            r == self.request_of(),
    {
        match self {
            Repo::Temp(path) => InstallationRequest::ForPath { path: path.clone(), user: true },
            Repo::Static { path, user } => InstallationRequest::ForPath {
                path: path.clone(),
                user: *user,
            },
            Repo::System => InstallationRequest::System,
            Repo::User => InstallationRequest::User,
        }
    }

    /// Is this a repository for one run?
    pub fn is_temporary(&self) -> (b: bool)
        ensures
            b == (self is Temp),
    {
        match self {
            Repo::Temp(_) => true,
            _ => false,
        }
    }
}

/// What the engine is asked to open for `value`.
pub fn get_installation(value: &Repo) -> (r: InstallationRequest)
    ensures
        r == value.request_of(),
{
    value.installation_request()
}

/// A repository together with the one right to delete it.
#[derive(Debug)]
pub struct RepoHandle {
    repo: Repo,
    destroyed: bool,
}

impl RepoHandle {
    /// The repository that the handle stands for.
    pub closed spec fn repo(&self) -> Repo {
        self.repo
    }

    /// Has the handle been torn down?
    pub closed spec fn is_destroyed(&self) -> bool {
        self.destroyed
    }

    /// What a teardown hands out for deletion: the directory of a temporary
    /// repository that has not been torn down yet, and else nothing.
    pub open spec fn to_delete(&self) -> Option<String> {
        if self.is_destroyed() {
            None
        } else {
            self.repo().owned_path()
        }
    }

    /// A handle on `repo`, not torn down.
    pub fn new(repo: Repo) -> (h: RepoHandle)
        ensures
            h.repo() == repo,
            !h.is_destroyed(),
    {
        RepoHandle { repo, destroyed: false }
    }

    /// The repository that the handle stands for.
    pub fn get(&self) -> (r: &Repo)
        ensures
            *r == self.repo(),
    {
        &self.repo
    }

    /// Has the handle been torn down?
    pub fn destroyed(&self) -> (b: bool)
        ensures
            b == self.is_destroyed(),
    {
        self.destroyed
    }

    /// Tears the repository down. The first call on the handle of a temporary
    /// repository returns its directory, which the caller deletes with all
    /// that is in it; whether the directory was ever made does not matter.
    /// Every later call, and every call on another kind of repository,
    /// returns nothing and is no error.
    pub fn destroy(&mut self) -> (deleted: Option<String>)
        ensures
            deleted == old(self).to_delete(),
            torn_down(*old(self), *final(self)),
            final(self).to_delete() is None,
    {
        if self.destroyed {
            return None;
        }
        self.destroyed = true;
        match &self.repo {
            Repo::Temp(path) => Some(path.clone()),
            _ => None,
        }
    }
}

/// The handle after a teardown, as contracts see it.
pub open spec fn torn_down(h: RepoHandle, after: RepoHandle) -> bool {
    after.is_destroyed() && after.repo() == h.repo()
}

/// Tearing a handle down twice deletes at most once: whatever the handle was
/// before, after one teardown the next one hands out nothing, is no error
/// (a teardown has none), and leaves the handle as it was.
pub proof fn second_teardown_deletes_nothing(before: RepoHandle, once: RepoHandle, twice: RepoHandle)
    requires
        torn_down(before, once),
        torn_down(once, twice),
    ensures
        once.to_delete() is None,
        twice.to_delete() is None,
        twice.repo() == before.repo(),
        twice.is_destroyed() == once.is_destroyed(),
{
}

} // verus!
