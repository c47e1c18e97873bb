//! An installed application, and where its runtime is installed to.

use vstd::prelude::*;
use crate::repo::InstallationRequest;
use crate::text::{chars_of, contains, lemma_rfind_upto, rfind, rfind_upto, slice_of, str_eq};

verus! {

/// Where the runtime of an application is installed to.
#[derive(Clone, Copy, Debug, PartialEq, Eq, Structural)]
pub enum DependencyInstall {
    /// The repository of the whole system.
    System,
    /// The repository of the user.
    User,
    /// The repository of the run, which goes when the run ends.
    Temp,
}

impl Default for DependencyInstall {
    /// The repository of the user.
    fn default() -> (d: DependencyInstall)
        ensures
            d == DependencyInstall::User,
    {
        DependencyInstall::User
    }
}

/// The place that a word names: `system`, `user` or `temp`, and the user's
/// repository for every other word.
pub open spec fn dependency_install_of(word: Seq<char>) -> DependencyInstall {
    if word == "system"@ {
        DependencyInstall::System
    } else if word == "temp"@ {
        DependencyInstall::Temp
    } else {
        DependencyInstall::User
    }
}

impl From<&str> for DependencyInstall {
    fn from(value: &str) -> (d: DependencyInstall) {
        if str_eq(value, "system") {
            DependencyInstall::System
        } else if str_eq(value, "temp") {
            DependencyInstall::Temp
        } else {
            DependencyInstall::User
        }
    }
}

impl vstd::std_specs::convert::FromSpecImpl<&str> for DependencyInstall {
    open spec fn obeys_from_spec() -> bool {
        true
    }

    open spec fn from_spec(value: &str) -> DependencyInstall {
        dependency_install_of(value@)
    }
}

/// The repository that the runtime's transaction works on.
#[derive(Clone, Debug, PartialEq, Eq)]
pub enum DependencyTarget {
    /// The repository of the run itself.
    RunRepository,
    /// Another repository, which outlives the run.
    Repository(InstallationRequest),
}

/// The repository that a place for dependencies stands for.
pub open spec fn target_of(place: DependencyInstall) -> DependencyTarget {
    match place {
        DependencyInstall::System => DependencyTarget::Repository(InstallationRequest::System),
        DependencyInstall::User => DependencyTarget::Repository(InstallationRequest::User),
        DependencyInstall::Temp => DependencyTarget::RunRepository,
    }
}

impl DependencyInstall {
    /// The repository that this place stands for.
    pub fn target(&self) -> (t: DependencyTarget)
        ensures
            t == target_of(*self),
    {
        match self {
            DependencyInstall::System => DependencyTarget::Repository(InstallationRequest::System),
            DependencyInstall::User => DependencyTarget::Repository(InstallationRequest::User),
            DependencyInstall::Temp => DependencyTarget::RunRepository,
        }
    }
}

impl DependencyTarget {
    /// The same target again.
    pub fn duplicate(&self) -> (t: DependencyTarget)
        ensures
            t == *self,
    {
        match self {
            DependencyTarget::RunRepository => DependencyTarget::RunRepository,
            DependencyTarget::Repository(request) => DependencyTarget::Repository(
                match request {
                    InstallationRequest::ForPath { path, user } => InstallationRequest::ForPath {
                        path: path.clone(),
                        user: *user,
                    },
                    InstallationRequest::System => InstallationRequest::System,
                    InstallationRequest::User => InstallationRequest::User,
                },
            ),
        }
    }
}

/// What follows the last `/` of `text`; all of `text` where it holds none.
pub open spec fn after_last_slash(text: Seq<char>) -> Seq<char> {
    match rfind_upto(text, "/"@, text.len() as int) {
        Some(i) => text.subrange(i + 1, text.len() as int),
        None => text,
    }
}

/// What the engine is asked to start.
#[derive(Clone, Debug, PartialEq, Eq)]
pub struct LaunchRequest {
    /// The id of the application.
    pub app_id: String,
    /// The branch to start.
    pub branch: String,
    /// Is the process left for the caller to wait for? Then the engine must
    /// not wait for it itself.
    pub do_not_reap: bool,
}

/// An application that the application transaction has installed.
///
/// The reference is the full one, `kind/name/arch/branch`, and so holds a `/`.
#[derive(Debug, PartialEq, Eq)]
pub struct Flatpak {
    app_ref: String,
    app_id: String,
}

impl Flatpak {
    /// The full reference.
    pub closed spec fn app_ref(&self) -> Seq<char> {
        self.app_ref@
    }

    /// The id of the application.
    pub closed spec fn app_id(&self) -> Seq<char> {
        self.app_id@
    }

    /// The reference holds a `/`.
    #[verifier::type_invariant]
    pub closed spec fn wf(&self) -> bool {
        contains(self.app_ref@, "/"@)
    }

    /// The application with the given full reference and id, as read back
    /// from the transaction that installed it. `None` where the reference
    /// holds no `/`, and so no branch.
    pub fn new(app_ref: String, app_id: String) -> (r: Option<Flatpak>)
        ensures
            r is Some <==> contains(app_ref@, "/"@),
            r matches Some(f) ==> f.app_ref() == app_ref@ && f.app_id() == app_id@,
    {
        if crate::text::str_contains(app_ref.as_str(), "/") {
            Some(Flatpak { app_ref, app_id })
        } else {
            None
        }
    }

    /// The full reference.
    pub fn reference(&self) -> (r: &String)
        ensures
            r@ == self.app_ref(),
    {
        &self.app_ref
    }

    /// The id of the application.
    pub fn id(&self) -> (r: &String)
        ensures
            r@ == self.app_id(),
    {
        &self.app_id
    }

    /// The branch: what follows the last `/` of the reference.
    pub fn branch(&self) -> (b: String)
        ensures
            b@ == after_last_slash(self.app_ref()),
    {
        let chars = chars_of(self.app_ref.as_str());
        let pat = chars_of("/");
        let n: usize = chars.len();
        proof {
            reveal_strlit("/");
            lemma_rfind_upto(chars@, pat@, chars@.len() as int);
        }
        match rfind(&chars, &pat) {
            Some(i) => slice_of(self.app_ref.as_str(), i + 1, n),
            None => self.app_ref.clone(),
        }
    }

    /// What to start: the application by its id, on the branch of its
    /// reference. The process is left for the supervisor to wait for.
    pub fn run(&self) -> (r: LaunchRequest)
        ensures
            r.app_id@ == self.app_id(),
            r.branch@ == after_last_slash(self.app_ref()),
            r.do_not_reap,
    {
        LaunchRequest { app_id: self.app_id.clone(), branch: self.branch(), do_not_reap: true }
    }
}

} // verus!
