//! Running an application for once, as the command line asks for it: what the
//! arguments mean, and what a listener is told while the run goes on.

use vstd::prelude::*;
use crate::outside::{join_path, path_join};
use crate::protocol::OperationKind;
use crate::reference::{path_from_uri, path_of_uri, Flatpak};
use crate::repo::Repo;

verus! {

/// What a listener is told while a run goes on.
#[derive(Clone, Debug, PartialEq, Eq)]
pub enum Message {
    /// An install has come this far: the reference, the percentage from 0 to
    /// 100, and whether it is the install of a runtime.
    Install { r: String, progress: u8, dependency: bool },
    /// The application runs: its name.
    Running { n: String },
    /// Something that the listener has no use for.
    Unknown,
}

impl Message {
    /// The message for a change in an operation of kind `t` on the reference
    /// `r`: an install, from a remote or from a bundle, is told with its
    /// percentage `p`; of every other operation only `Unknown` is told.
    pub fn new_from(t: OperationKind, r: String, p: u8, d: bool) -> (m: Message)
        ensures
            m == (match t {
                OperationKind::Install | OperationKind::InstallBundle => Message::Install {
                    r,
                    progress: p,
                    dependency: d,
                },
                OperationKind::Other => Message::Unknown,
            }),
    {
        match t {
            OperationKind::Install | OperationKind::InstallBundle => Message::Install {
                r,
                progress: p,
                dependency: d,
            },
            OperationKind::Other => Message::Unknown,
        }
    }
}

/// One run, as the command line asks for it.
#[derive(Clone, Debug, PartialEq, Eq)]
pub struct RunRequest {
    /// The directory under which the repository of the run is made.
    pub install_under: String,
    /// What to run.
    pub app: Flatpak,
    /// Where runtimes are installed to.
    pub deps_at: Repo,
    /// The runtime to install, where the command line names a bundle for it.
    pub runtime: Option<Flatpak>,
    /// The remote to download from, where the command line names one.
    pub remote_uri: Option<String>,
}

/// What the command line asks for.
#[derive(Clone, Debug, PartialEq, Eq)]
pub struct RunPlan {
    /// The directory to clear first, if any.
    pub clean: Option<String>,
    /// The run to make, if any.
    pub run: Option<RunRequest>,
    /// Is the user told how to call the program?
    pub show_help: bool,
}

/// The name of the directory for the repositories of downloads.
pub open spec fn download_dir_name() -> Seq<char> {
    "flatrun"@
}

/// The bundle at the path that a URI or a plain path names.
pub open spec fn bundle_of(uri: String, f: Flatpak) -> bool {
    f matches Flatpak::Bundle(path) && path@ == path_of_uri(uri@)
}

/// The runtime of a run is the bundle that the command line names for it, or
/// none.
pub open spec fn runtime_is(dep: Option<String>, runtime: Option<Flatpak>) -> bool {
    match dep {
        Some(uri) => runtime is Some && bundle_of(uri, runtime->0),
        None => runtime is None,
    }
}

/// What the command line asks for, where `temp_dir` is the system's
/// directory for temporary files.
///
/// With `clean`, the directory for downloads is cleared first. A `file` is
/// run from a repository under `temp_dir`. Without a `file`, an `app_id` is
/// downloaded and run from a repository under the directory for downloads.
/// With neither there is no run, and the user is told how to call the
/// program unless the call was made to clean. Runtimes go to the system's
/// repository.
pub fn run_no_install(
    file: Option<String>,
    dep: Option<String>,
    app_id: Option<String>,
    remote: Option<String>,
    clean: bool,
    temp_dir: &str,
) -> (plan: RunPlan)
    ensures
        match plan.clean {
            Some(dir) => clean && dir@ == path_join(temp_dir@, download_dir_name()),
            None => !clean,
        },
        plan.show_help == (file is None && app_id is None && !clean),
        plan.run is Some <==> (file is Some || app_id is Some),
        plan.run matches Some(request) ==> {
            &&& request.deps_at == Repo::System
            &&& request.remote_uri == remote
            &&& runtime_is(dep, request.runtime)
            &&& match file {
                Some(uri) => request.install_under@ == temp_dir@ && bundle_of(uri, request.app),
                None => request.install_under@ == path_join(temp_dir@, download_dir_name())
                    && request.app == Flatpak::Download(app_id->0),
            }
        },
{
    let cleaned = if clean {
        Some(join_path(temp_dir, "flatrun"))
    } else {
        None
    };
    let runtime = match dep {
        Some(uri) => Some(Flatpak::Bundle(path_from_uri(uri))),
        None => None,
    };
    match file {
        Some(uri) => RunPlan {
            clean: cleaned,
            run: Some(
                RunRequest {
                    install_under: temp_dir.to_owned(),
                    app: Flatpak::Bundle(path_from_uri(uri)),
                    deps_at: Repo::System,
                    runtime,
                    remote_uri: remote,
                },
            ),
            show_help: false,
        },
        None => match app_id {
            Some(id) => RunPlan {
                clean: cleaned,
                run: Some(
                    RunRequest {
                        install_under: join_path(temp_dir, "flatrun"),
                        app: Flatpak::Download(id),
                        deps_at: Repo::System,
                        runtime,
                        remote_uri: remote,
                    },
                ),
                show_help: false,
            },
            None => RunPlan { clean: cleaned, run: None, show_help: !clean },
        },
    }
}

} // verus!
