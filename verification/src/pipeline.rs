//! The run from a reference to a finished application: resolve, install the
//! runtime, install the application, launch, watch, tear down.
//!
//! The pipeline is a state machine. It hands out one action at a time; a
//! driver performs the action with the packaging engine and reports what came
//! of it. The stages stand in one fixed order:
//!
//! 1. a bundle file is looked for (a named application skips this);
//! 2. the repository of the run is opened;
//! 3. the manifest is read and the runtime taken from it;
//! 4. a transaction is opened on the repository of the runtime, and one on
//!    the repository of the run;
//! 5. the runtime is added to the first and the application to the second;
//! 6. both are subscribed to for progress;
//! 7. the runtime's transaction is run;
//! 8. its repository is made a source of the application's transaction;
//! 9. the application's transaction is run, and what it installed is read
//!    back;
//! 10. the application is launched, announced as running, and watched until
//!     it ends;
//! 11. the repository of the run is torn down, and the run is finished.
//!
//! A failure to add or to install the runtime is a warning, since the runtime
//! may be there already. Every other failure ends the run, by way of the
//! teardown.

use vstd::prelude::*;
use crate::error::FlatrunError;
use crate::flatpak::{
    after_last_slash, target_of, DependencyInstall, DependencyTarget, Flatpak, LaunchRequest,
};
use crate::reference::{runtime_of, runtime_ref_text, RefType, RuntimeRef};
use crate::outside::path_join;
use crate::repo::{is_temp_name, InstallationRequest, Repo, RepoHandle};
use crate::supervisor::ProcessState;
use crate::text::contains;

verus! {

/// Where a run stands: what the driver has been asked to do and has not yet
/// answered.
#[derive(Clone, Copy, Debug, PartialEq, Eq, Structural)]
pub enum Stage {
    CheckingSource,
    OpeningRepository,
    ReadingManifest,
    OpeningDependencyTransaction,
    OpeningApplicationTransaction,
    AddingDependency,
    AddingApplication,
    Subscribing,
    RunningDependency,
    RegisteringSideload,
    RunningApplication,
    ReadingBack,
    Launching,
    Announcing,
    Supervising,
    TearingDown,
    Finished,
}

/// What the driver reports.
#[derive(Clone, Debug, PartialEq, Eq)]
pub enum Event {
    /// The bundle file was looked for.
    SourceChecked { exists: bool },
    /// The action was done and gives nothing back.
    Completed,
    /// The action failed; what the engine said.
    Failed(String),
    /// The manifest was read: the name that the application shows, and the
    /// value of its `runtime` key where it has one.
    Manifest { name: String, runtime: Option<String> },
    /// The application's transaction was read back: the full reference and the
    /// id of what it installed.
    Installed { app_ref: String, app_id: String },
    /// The application was started under this process id.
    Launched { pid: i32 },
    /// The watch is over: how the application ended.
    Terminated(ProcessState),
}

/// What the driver does next.
#[derive(Debug, PartialEq, Eq)]
pub enum Action {
    /// Look whether the bundle file exists.
    CheckSource { path: String },
    /// Open the repository of the run, and add the remote unless offline.
    OpenRepository { request: InstallationRequest, add_remote: bool },
    /// Read the manifest of what is to be run.
    ReadManifest { target: RefType },
    /// Open the runtime's transaction, with the default sources of
    /// dependencies.
    OpenDependencyTransaction { install_to: DependencyTarget },
    /// Open the application's transaction on the repository of the run, with
    /// the default sources of dependencies.
    OpenApplicationTransaction,
    /// Add the install of the runtime to its transaction.
    AddDependencyInstall { remote: String, reference: String },
    /// Add the install of the runtime from a bundle file to its transaction.
    AddDependencyBundle { path: String },
    /// Add the install of the application to its transaction.
    AddApplicationInstall { target: RefType },
    /// Subscribe to the progress of both transactions.
    Subscribe,
    /// Run the runtime's transaction to its end.
    RunDependencyTransaction,
    /// Make the repository of the runtime a source of the application's
    /// transaction.
    RegisterSideload,
    /// Run the application's transaction to its end.
    RunApplicationTransaction,
    /// Read back what the application's transaction installed.
    ReadBack,
    /// Start the application, and leave the waiting to the supervisor.
    Launch(LaunchRequest),
    /// Tell whoever listens that the application is running.
    AnnounceRunning { name: String },
    /// Watch the process until it ends.
    Supervise { pid: i32 },
    /// Delete the directory, if one is given, with all that is in it.
    Teardown { delete: Option<String> },
    /// The run is over.
    Finish(Result<ProcessState, FlatrunError>),
}

/// The remote that runtimes are installed from.
pub open spec fn runtime_remote() -> Seq<char> {
    "flathub"@
}

/// A run as contracts see it.
pub struct PipelineView {
    /// Where the run stands.
    pub stage: Stage,
    /// What is to be run.
    pub target: RefType,
    /// Where the runtime is installed to.
    pub deps: DependencyTarget,
    /// The remote that the runtime is installed from.
    pub remote: Seq<char>,
    /// The bundle file that the runtime is installed from, where the caller
    /// has named one.
    pub runtime_bundle: Option<Seq<char>>,
    /// Is the run without network? Then no remote is added and the runtime's
    /// transaction is not run.
    pub offline: bool,
    /// The repository of the run.
    pub repo: Repo,
    /// Has the repository been torn down?
    pub destroyed: bool,
    /// The name that the application shows, once the manifest is read.
    pub name: Option<Seq<char>>,
    /// The value of the manifest's `runtime` key, once it is read.
    pub runtime: Option<Seq<char>>,
    /// The full reference and the id of the installed application.
    pub installed: Option<(Seq<char>, Seq<char>)>,
    /// The process id of the launched application.
    pub pid: Option<i32>,
    /// How the application ended.
    pub ended: Option<ProcessState>,
    /// Why the run failed, if it did.
    pub failure: Option<FlatrunError>,
    /// How many failures the run got over.
    pub warnings: nat,
}

/// The stage that follows `stage` where all goes well.
pub open spec fn successor(stage: Stage, offline: bool) -> Stage {
    match stage {
        Stage::CheckingSource => Stage::OpeningRepository,
        Stage::OpeningRepository => Stage::ReadingManifest,
        Stage::ReadingManifest => Stage::OpeningDependencyTransaction,
        Stage::OpeningDependencyTransaction => Stage::OpeningApplicationTransaction,
        Stage::OpeningApplicationTransaction => Stage::AddingDependency,
        Stage::AddingDependency => Stage::AddingApplication,
        Stage::AddingApplication => Stage::Subscribing,
        Stage::Subscribing => if offline {
            Stage::RegisteringSideload
        } else {
            Stage::RunningDependency
        },
        Stage::RunningDependency => Stage::RegisteringSideload,
        Stage::RegisteringSideload => Stage::RunningApplication,
        Stage::RunningApplication => Stage::ReadingBack,
        Stage::ReadingBack => Stage::Launching,
        Stage::Launching => Stage::Announcing,
        Stage::Announcing => Stage::Supervising,
        Stage::Supervising => Stage::TearingDown,
        Stage::TearingDown => Stage::Finished,
        Stage::Finished => Stage::Finished,
    }
}

/// The place of a stage in the order of a run.
pub open spec fn rank(stage: Stage) -> nat {
    match stage {
        Stage::CheckingSource => 0,
        Stage::OpeningRepository => 1,
        Stage::ReadingManifest => 2,
        Stage::OpeningDependencyTransaction => 3,
        Stage::OpeningApplicationTransaction => 4,
        Stage::AddingDependency => 5,
        Stage::AddingApplication => 6,
        Stage::Subscribing => 7,
        Stage::RunningDependency => 8,
        Stage::RegisteringSideload => 9,
        Stage::RunningApplication => 10,
        Stage::ReadingBack => 11,
        Stage::Launching => 12,
        Stage::Announcing => 13,
        Stage::Supervising => 14,
        Stage::TearingDown => 15,
        Stage::Finished => 16,
    }
}

/// A failure at this stage is a warning: the run goes on.
pub open spec fn recoverable(stage: Stage) -> bool {
    stage is AddingDependency || stage is RunningDependency
}

/// The driver's action at this stage may write into the repository of the run.
pub open spec fn touches_repository(stage: Stage) -> bool {
    rank(Stage::OpeningRepository) <= rank(stage) <= rank(Stage::Supervising)
}

/// The event is the good answer to the action of the stage.
pub open spec fn accepts(stage: Stage, event: Event) -> bool {
    match stage {
        Stage::CheckingSource => event matches Event::SourceChecked { exists } && exists,
        Stage::ReadingManifest => event matches Event::Manifest { runtime: Some(rt), .. }
            && runtime_of(rt@) is Some,
        Stage::ReadingBack => event matches Event::Installed { app_ref, .. } && contains(
            app_ref@,
            "/"@,
        ),
        Stage::Launching => event matches Event::Launched { pid } && pid > 0,
        Stage::Supervising => event matches Event::Terminated(s) && s != ProcessState::Running,
        Stage::AddingDependency | Stage::RunningDependency => !(event is Failed),
        Stage::TearingDown | Stage::Finished => true,
        _ => event is Completed,
    }
}

/// What the engine said, where the event is a failure; else a word on what
/// was wrong with the answer.
pub open spec fn complaint(stage: Stage, event: Event) -> Seq<char> {
    match event {
        Event::Failed(text) => text@,
        Event::Manifest { .. } => "the manifest names no runtime of the form id/arch/branch"@,
        Event::Installed { .. } => "the installed reference names no branch"@,
        Event::Launched { .. } => "the engine gave no process id"@,
        _ => "the driver gave an answer that does not fit the action"@,
    }
}

/// The error that ends the run where the stage's action did not go well.
pub open spec fn is_failure_of(error: FlatrunError, v: PipelineView, event: Event) -> bool {
    match v.stage {
        Stage::CheckingSource => match event {
            Event::SourceChecked { .. } => error matches FlatrunError::FileNotFound(p)
                && v.target matches RefType::Path(path) && p == path,
            _ => error matches FlatrunError::Resolution(t) && t@ == complaint(v.stage, event),
        },
        Stage::ReadingManifest => error matches FlatrunError::Resolution(t) && t@ == complaint(
            v.stage,
            event,
        ),
        Stage::OpeningRepository => error matches FlatrunError::Repository(t) && t@ == complaint(
            v.stage,
            event,
        ),
        Stage::Launching | Stage::Announcing | Stage::Supervising => error matches FlatrunError::Launch(
            t,
        ) && t@ == complaint(v.stage, event),
        _ => error matches FlatrunError::Transaction(t) && t@ == complaint(v.stage, event),
    }
}

/// The stage after an event.
pub open spec fn next_stage(stage: Stage, offline: bool, event: Event) -> Stage {
    if stage is Finished {
        Stage::Finished
    } else if accepts(stage, event) || recoverable(stage) {
        successor(stage, offline)
    } else {
        Stage::TearingDown
    }
}

/// The run after an event, but for the error that a failure leaves, which
/// `is_failure_of` describes.
pub open spec fn follows(before: PipelineView, event: Event, after: PipelineView) -> bool {
    let went_well = accepts(before.stage, event);
    &&& after.stage == next_stage(before.stage, before.offline, event)
    &&& after.target == before.target
    &&& after.deps == before.deps
    &&& after.remote == before.remote
    &&& after.runtime_bundle == before.runtime_bundle
    &&& after.offline == before.offline
    &&& after.repo == before.repo
    &&& after.destroyed == (before.destroyed || after.stage is TearingDown)
    &&& after.name == (if before.stage is ReadingManifest && went_well {
        Some(event->Manifest_name@)
    } else {
        before.name
    })
    &&& after.runtime == (if before.stage is ReadingManifest && went_well {
        Some(event->Manifest_runtime->0@)
    } else {
        before.runtime
    })
    &&& after.installed == (if before.stage is ReadingBack && went_well {
        Some((event->Installed_app_ref@, event->Installed_app_id@))
    } else {
        before.installed
    })
    &&& after.pid == (if before.stage is Launching && went_well {
        Some(event->Launched_pid)
    } else {
        before.pid
    })
    &&& after.ended == (if before.stage is Supervising && went_well {
        Some(event->Terminated_0)
    } else {
        before.ended
    })
    &&& after.warnings == before.warnings + (if recoverable(before.stage) && !went_well {
        1nat
    } else {
        0nat
    })
    &&& if before.stage is Finished || went_well || recoverable(before.stage) {
        after.failure == before.failure
    } else {
        after.failure matches Some(error) && is_failure_of(error, before, event)
    }
}

/// The action is the one that the run asks for at its stage.
pub open spec fn asks(v: PipelineView, action: Action) -> bool {
    match v.stage {
        Stage::CheckingSource => action matches Action::CheckSource { path } && v.target
            == RefType::Path(path),
        Stage::OpeningRepository => action matches Action::OpenRepository { request, add_remote }
            && request == v.repo.request_of() && add_remote == !v.offline,
        Stage::ReadingManifest => action matches Action::ReadManifest { target } && target
            == v.target,
        Stage::OpeningDependencyTransaction => action
            == (Action::OpenDependencyTransaction { install_to: v.deps }),
        Stage::OpeningApplicationTransaction => action == Action::OpenApplicationTransaction,
        Stage::AddingDependency => match v.runtime_bundle {
            Some(bundle) => action matches Action::AddDependencyBundle { path } && path@
                == bundle,
            None => action matches Action::AddDependencyInstall { remote, reference } && remote@
                == v.remote && v.runtime is Some && reference@ == runtime_ref_text(
                v.runtime->0,
            ),
        },
        Stage::AddingApplication => action matches Action::AddApplicationInstall { target }
            && target == v.target,
        Stage::Subscribing => action == Action::Subscribe,
        Stage::RunningDependency => action == Action::RunDependencyTransaction,
        Stage::RegisteringSideload => action == Action::RegisterSideload,
        Stage::RunningApplication => action == Action::RunApplicationTransaction,
        Stage::ReadingBack => action == Action::ReadBack,
        Stage::Launching => action matches Action::Launch(request) && v.installed is Some
            && request.app_id@ == installed_id(v) && request.branch@ == after_last_slash(
            installed_ref(v),
        ) && request.do_not_reap,
        Stage::Announcing => action matches Action::AnnounceRunning { name } && v.name
            == Some(name@),
        Stage::Supervising => action matches Action::Supervise { pid } && v.pid == Some(pid),
        Stage::TearingDown => action matches Action::Teardown { delete } && delete
            == v.repo.owned_path(),
        Stage::Finished => action matches Action::Finish(outcome) && outcome == outcome_of(v),
    }
}

/// The full reference of the installed application.
pub open spec fn installed_ref(v: PipelineView) -> Seq<char> {
    let app = v.installed->0;
    app.0
}

/// The id of the installed application.
pub open spec fn installed_id(v: PipelineView) -> Seq<char> {
    let app = v.installed->0;
    app.1
}

/// How a finished run ended: with the error that stopped it, or with the way
/// the application ended.
pub open spec fn outcome_of(v: PipelineView) -> Result<ProcessState, FlatrunError> {
    match v.failure {
        Some(error) => Err(error),
        None => match v.ended {
            Some(state) => Ok(state),
            None => Ok(ProcessState::Running),
        },
    }
}

/// What holds of a run at every moment.
pub open spec fn consistent(v: PipelineView) -> bool {
    &&& v.destroyed <==> (v.stage is TearingDown || v.stage is Finished)
    &&& v.stage is CheckingSource ==> v.target is Path
    &&& rank(Stage::ReadingManifest) < rank(v.stage) <= rank(Stage::Supervising) ==> {
        &&& v.name is Some
        &&& v.runtime is Some
        &&& runtime_of(v.runtime->0) is Some
    }
    &&& rank(Stage::ReadingBack) < rank(v.stage) <= rank(Stage::Supervising) ==> {
        &&& v.installed is Some
        &&& contains(installed_ref(v), "/"@)
    }
    &&& rank(Stage::Launching) < rank(v.stage) <= rank(Stage::Supervising) ==> {
        &&& v.pid is Some
        &&& v.pid->0 > 0
    }
    &&& rank(v.stage) <= rank(Stage::Supervising) ==> v.failure is None && v.ended is None
    &&& v.failure is None && rank(v.stage) > rank(Stage::Supervising) ==> {
        &&& v.ended is Some
        &&& v.ended->0 != ProcessState::Running
    }
    &&& v.warnings <= 2
    &&& rank(v.stage) <= rank(Stage::AddingDependency) ==> v.warnings == 0
    &&& rank(v.stage) <= rank(Stage::RunningDependency) ==> v.warnings <= 1
}

/// The run at its start, with the runtime taken from the remote `remote`, or
/// from the bundle file `runtime_bundle` where one is named.
pub open spec fn initial_with(
    target: RefType,
    offline: bool,
    deps: DependencyTarget,
    repo: Repo,
    remote: Seq<char>,
    runtime_bundle: Option<Seq<char>>,
) -> PipelineView {
    PipelineView {
        stage: if target is Path {
            Stage::CheckingSource
        } else {
            Stage::OpeningRepository
        },
        target,
        deps,
        remote,
        runtime_bundle,
        offline,
        repo,
        destroyed: false,
        name: None,
        runtime: None,
        installed: None,
        pid: None,
        ended: None,
        failure: None,
        warnings: 0,
    }
}

/// The run at its start, with the runtime taken from Flathub.
pub open spec fn initial(target: RefType, offline: bool, deps: DependencyInstall, repo: Repo)
    -> PipelineView {
    initial_with(target, offline, target_of(deps), repo, runtime_remote(), None)
}

/// A run of the pipeline.
#[derive(Debug)]
pub struct Pipeline {
    stage: Stage,
    target: RefType,
    deps: DependencyTarget,
    remote: String,
    runtime_bundle: Option<String>,
    offline: bool,
    handle: RepoHandle,
    name: Option<String>,
    runtime: Option<String>,
    installed: Option<Flatpak>,
    pid: Option<i32>,
    ended: Option<ProcessState>,
    failure: Option<FlatrunError>,
    warnings: u8,
}

impl View for Pipeline {
    type V = PipelineView;

    closed spec fn view(&self) -> PipelineView {
        PipelineView {
            stage: self.stage,
            target: self.target,
            deps: self.deps,
            remote: self.remote@,
            runtime_bundle: match self.runtime_bundle {
                Some(bundle) => Some(bundle@),
                None => None,
            },
            offline: self.offline,
            repo: self.handle.repo(),
            destroyed: self.handle.is_destroyed(),
            name: match self.name {
                Some(n) => Some(n@),
                None => None,
            },
            runtime: match self.runtime {
                Some(rt) => Some(rt@),
                None => None,
            },
            installed: match self.installed {
                Some(app) => Some((app.app_ref(), app.app_id())),
                None => None,
            },
            pid: self.pid,
            ended: self.ended,
            failure: self.failure,
            warnings: self.warnings as nat,
        }
    }
}

impl Pipeline {
    /// The run is consistent.
    #[verifier::type_invariant]
    closed spec fn wf(&self) -> bool {
        consistent(self@)
    }

    /// Where the run stands.
    pub fn stage(&self) -> (s: Stage)
        ensures
            s == self@.stage,
    {
        self.stage
    }

    /// Is the run over?
    pub fn is_finished(&self) -> (b: bool)
        ensures
            b == (self@.stage is Finished),
    {
        match self.stage {
            Stage::Finished => true,
            _ => false,
        }
    }

    /// How many failures the run got over.
    pub fn warnings(&self) -> (n: u8)
        ensures
            n == self@.warnings,
            n <= 2,
    {
        proof {
            use_type_invariant(self);
        }
        self.warnings
    }

    /// Has the repository of the run been torn down?
    pub fn torn_down(&self) -> (b: bool)
        ensures
            b == self@.destroyed,
            b == (self@.stage is TearingDown || self@.stage is Finished),
    {
        proof {
            use_type_invariant(self);
        }
        self.handle.destroyed()
    }

    /// The action that the run asks for at its stage.
    fn action(&self) -> (a: Action)
        ensures
            asks(self@, a),
    {
        proof {
            use_type_invariant(self);
            reveal_strlit("flathub");
        }
        match self.stage {
            Stage::CheckingSource => match &self.target {
                RefType::Path(path) => Action::CheckSource { path: path.clone() },
                RefType::Name { .. } => Action::Finish(Ok(ProcessState::Running)),
            },
            Stage::OpeningRepository => Action::OpenRepository {
                request: self.handle.get().installation_request(),
                add_remote: !self.offline,
            },
            Stage::ReadingManifest => Action::ReadManifest { target: copy_of(&self.target) },
            Stage::OpeningDependencyTransaction => Action::OpenDependencyTransaction {
                install_to: self.deps.duplicate(),
            },
            Stage::OpeningApplicationTransaction => Action::OpenApplicationTransaction,
            Stage::AddingDependency => match (&self.runtime_bundle, &self.runtime) {
                (Some(bundle), _) => Action::AddDependencyBundle { path: bundle.clone() },
                (None, Some(rt)) => Action::AddDependencyInstall {
                    remote: self.remote.clone(),
                    reference: crate::text::concat2("runtime/", rt.as_str()),
                },
                (None, None) => Action::Finish(Ok(ProcessState::Running)),
            },
            Stage::AddingApplication => Action::AddApplicationInstall {
                target: copy_of(&self.target),
            },
            Stage::Subscribing => Action::Subscribe,
            Stage::RunningDependency => Action::RunDependencyTransaction,
            Stage::RegisteringSideload => Action::RegisterSideload,
            Stage::RunningApplication => Action::RunApplicationTransaction,
            Stage::ReadingBack => Action::ReadBack,
            Stage::Launching => match &self.installed {
                Some(app) => Action::Launch(app.run()),
                None => Action::Finish(Ok(ProcessState::Running)),
            },
            Stage::Announcing => match &self.name {
                Some(name) => Action::AnnounceRunning { name: name.clone() },
                None => Action::Finish(Ok(ProcessState::Running)),
            },
            Stage::Supervising => match self.pid {
                Some(pid) => Action::Supervise { pid },
                None => Action::Finish(Ok(ProcessState::Running)),
            },
            Stage::TearingDown => Action::Teardown {
                delete: match self.handle.get() {
                    Repo::Temp(path) => Some(path.clone()),
                    _ => None,
                },
            },
            Stage::Finished => Action::Finish(
                match &self.failure {
                    Some(error) => Err(copy_of_error(error)),
                    None => match self.ended {
                        Some(state) => Ok(state),
                        None => Ok(ProcessState::Running),
                    },
                },
            ),
        }
    }

    /// Takes in the driver's answer to the last action and hands out the next
    /// action.
    ///
    /// A good answer moves the run to the next stage. A failure to add or to
    /// run the runtime's install is counted as a warning and moves the run on
    /// as well. Any other answer ends the run: its error is kept, the next
    /// action is the teardown, and the one after that finishes the run with
    /// the error. A finished run stays finished and repeats its outcome.
    pub fn step(self, event: Event) -> (r: (Pipeline, Action))
        ensures
            follows(self@, event, r.0@),
            asks(r.0@, r.1),
            consistent(r.0@),
    {
        proof {
            use_type_invariant(&self);
        }
        let Pipeline {
            stage,
            target,
            deps,
            remote,
            runtime_bundle,
            offline,
            handle,
            name,
            runtime,
            installed,
            pid,
            ended,
            failure,
            warnings,
        } = self;
        let mut handle = handle;
        let mut name = name;
        let mut runtime = runtime;
        let mut installed = installed;
        let mut pid = pid;
        let mut ended = ended;
        let mut failure = failure;
        let mut warnings = warnings;
        let mut went_well: bool = false;
        match stage {
            Stage::Finished | Stage::TearingDown => {
                went_well = true;
            },
            Stage::CheckingSource => {
                if let Event::SourceChecked { exists: true } = &event {
                    went_well = true;
                }
            },
            Stage::ReadingManifest => {
                if let Event::Manifest { name: shown, runtime: Some(rt) } = &event {
                    if RuntimeRef::parse(rt.as_str()).is_some() {
                        went_well = true;
                        name = Some(shown.clone());
                        runtime = Some(rt.clone());
                    }
                }
            },
            Stage::ReadingBack => {
                if let Event::Installed { app_ref, app_id } = &event {
                    let app = Flatpak::new(app_ref.clone(), app_id.clone());
                    if app.is_some() {
                        went_well = true;
                        installed = app;
                    }
                }
            },
            Stage::Launching => {
                if let Event::Launched { pid: started } = &event {
                    if *started > 0 {
                        went_well = true;
                        pid = Some(*started);
                    }
                }
            },
            Stage::Supervising => {
                if let Event::Terminated(state) = &event {
                    match state {
                        ProcessState::Running => {},
                        _ => {
                            went_well = true;
                            ended = Some(*state);
                        },
                    }
                }
            },
            Stage::AddingDependency | Stage::RunningDependency => {
                if let Event::Failed(_) = &event {
                    warnings = warnings + 1;
                } else {
                    went_well = true;
                }
            },
            _ => {
                if let Event::Completed = &event {
                    went_well = true;
                }
            },
        }
        let can_go_on: bool = went_well || is_recoverable(stage);
        let next: Stage = if can_go_on {
            following(stage, offline)
        } else {
            Stage::TearingDown
        };
        if !can_go_on {
            failure = Some(failure_for(stage, &target, &event));
        }
        if let Stage::TearingDown = next {
            let _ = handle.destroy();
        }
        let p = Pipeline {
            stage: next,
            target,
            deps,
            remote,
            runtime_bundle,
            offline,
            handle,
            name,
            runtime,
            installed,
            pid,
            ended,
            failure,
            warnings,
        };
        let a = p.action();
        (p, a)
    }
}

/// A failure at this stage is a warning.
fn is_recoverable(stage: Stage) -> (b: bool)
    ensures
        b == recoverable(stage),
{
    match stage {
        Stage::AddingDependency | Stage::RunningDependency => true,
        _ => false,
    }
}

/// The stage that follows where all goes well.
fn following(stage: Stage, offline: bool) -> (s: Stage)
    ensures
        s == successor(stage, offline),
{
    match stage {
        Stage::CheckingSource => Stage::OpeningRepository,
        Stage::OpeningRepository => Stage::ReadingManifest,
        Stage::ReadingManifest => Stage::OpeningDependencyTransaction,
        Stage::OpeningDependencyTransaction => Stage::OpeningApplicationTransaction,
        Stage::OpeningApplicationTransaction => Stage::AddingDependency,
        Stage::AddingDependency => Stage::AddingApplication,
        Stage::AddingApplication => Stage::Subscribing,
        Stage::Subscribing => if offline {
            Stage::RegisteringSideload
        } else {
            Stage::RunningDependency
        },
        Stage::RunningDependency => Stage::RegisteringSideload,
        Stage::RegisteringSideload => Stage::RunningApplication,
        Stage::RunningApplication => Stage::ReadingBack,
        Stage::ReadingBack => Stage::Launching,
        Stage::Launching => Stage::Announcing,
        Stage::Announcing => Stage::Supervising,
        Stage::Supervising => Stage::TearingDown,
        Stage::TearingDown => Stage::Finished,
        Stage::Finished => Stage::Finished,
    }
}

/// The same reference again.
fn copy_of(target: &RefType) -> (r: RefType)
    ensures
        r == *target,
{
    match target {
        RefType::Path(path) => RefType::Path(path.clone()),
        RefType::Name { remote, app } => RefType::Name { remote: remote.clone(), app: app.clone() },
    }
}

/// The same error again.
fn copy_of_error(error: &FlatrunError) -> (r: FlatrunError)
    ensures
        r == *error,
{
    match error {
        FlatrunError::FileNotFound(t) => FlatrunError::FileNotFound(t.clone()),
        FlatrunError::Resolution(t) => FlatrunError::Resolution(t.clone()),
        FlatrunError::Repository(t) => FlatrunError::Repository(t.clone()),
        FlatrunError::Transaction(t) => FlatrunError::Transaction(t.clone()),
        FlatrunError::Launch(t) => FlatrunError::Launch(t.clone()),
        FlatrunError::CommandUnsuccessful(t) => FlatrunError::CommandUnsuccessful(t.clone()),
    }
}

/// What was wrong with the driver's answer.
fn complaint_text(stage: Stage, event: &Event) -> (t: String)
    ensures
        t@ == complaint(stage, *event),
{
    match event {
        Event::Failed(text) => text.clone(),
        Event::Manifest { .. } => "the manifest names no runtime of the form id/arch/branch".to_owned(),
        Event::Installed { .. } => "the installed reference names no branch".to_owned(),
        Event::Launched { .. } => "the engine gave no process id".to_owned(),
        _ => "the driver gave an answer that does not fit the action".to_owned(),
    }
}

/// The error that ends the run at this stage.
fn failure_for(stage: Stage, target: &RefType, event: &Event) -> (e: FlatrunError)
    requires
        stage is CheckingSource ==> *target is Path,
    ensures
        forall|v: PipelineView|
            v.stage == stage && v.target == *target ==> #[trigger] is_failure_of(e, v, *event),
{
    match stage {
        Stage::CheckingSource => match (event, target) {
            (Event::SourceChecked { .. }, RefType::Path(path)) => FlatrunError::FileNotFound(
                path.clone(),
            ),
            _ => FlatrunError::Resolution(complaint_text(stage, event)),
        },
        Stage::ReadingManifest => FlatrunError::Resolution(complaint_text(stage, event)),
        Stage::OpeningRepository => FlatrunError::Repository(complaint_text(stage, event)),
        Stage::Launching | Stage::Announcing | Stage::Supervising => FlatrunError::Launch(
            complaint_text(stage, event),
        ),
        _ => FlatrunError::Transaction(complaint_text(stage, event)),
    }
}

/// Begins a run of `app` on the repository `repo`, with the runtime installed
/// to `deps` from the remote `remote`, or from the bundle file
/// `runtime_bundle` where one is named. The first action is to look for the
/// bundle file of the application, or, for a named application, to open the
/// repository.
pub fn run_with(
    app: RefType,
    offline: bool,
    deps: DependencyTarget,
    repo: Repo,
    remote: &str,
    runtime_bundle: Option<String>,
) -> (r: (Pipeline, Action))
    ensures
        r.0@ == initial_with(
            app,
            offline,
            deps,
            repo,
            remote@,
            match runtime_bundle {
                Some(bundle) => Some(bundle@),
                None => None,
            },
        ),
        asks(r.0@, r.1),
        consistent(r.0@),
{
    let stage = if app.is_bundle() {
        Stage::CheckingSource
    } else {
        Stage::OpeningRepository
    };
    let p = Pipeline {
        stage,
        target: app,
        deps,
        remote: remote.to_owned(),
        runtime_bundle,
        offline,
        handle: RepoHandle::new(repo),
        name: None,
        runtime: None,
        installed: None,
        pid: None,
        ended: None,
        failure: None,
        warnings: 0,
    };
    let a = p.action();
    (p, a)
}

/// Begins a run of `app` on the repository `repo`, with the runtime taken
/// from Flathub.
///
/// `dependencies` says where the runtime is installed to. With `offline` no
/// remote is added to the repository and the runtime's transaction is not
/// run.
pub fn run_on(app: RefType, offline: bool, dependencies: DependencyInstall, repo: Repo) -> (r: (
    Pipeline,
    Action,
))
    ensures
        r.0@ == initial(app, offline, dependencies, repo),
        asks(r.0@, r.1),
        consistent(r.0@),
{
    run_with(app, offline, dependencies.target(), repo, "flathub", None)
}

/// Begins a run of `app` in a new repository of its own, under a fresh name
/// in the directory `cache_root`.
///
/// `dependencies` says where the runtime is installed to. With `offline` no
/// remote is added to the repository and the runtime's transaction is not
/// run.
pub fn run(app: RefType, offline: bool, dependencies: DependencyInstall, cache_root: String) -> (r:
    (Pipeline, Action))
    ensures
        exists|name: Seq<char>, path: String|
            is_temp_name(name) && path@ == #[trigger] path_join(cache_root@, name) && r.0@
                == #[trigger] initial(app, offline, dependencies, Repo::Temp(path)),
        asks(r.0@, r.1),
        consistent(r.0@),
{
    let repo = Repo::temp_in(cache_root);
    run_on(app, offline, dependencies, repo)
}

/// Begins the helper's run of the bundle at `path`, in the repository at
/// `installation` that its caller has named and will remove. Runtimes go to
/// the system's repository, whatever `_deps_installation` says: a repository
/// of their own cannot yet be a source of the application's transaction.
pub fn install_bundle(installation: String, _deps_installation: String, path: String) -> (r: (
    Pipeline,
    Action,
))
    ensures
        r.0@ == initial(
            RefType::Path(path),
            false,
            DependencyInstall::System,
            Repo::Static { path: installation, user: true },
        ),
        r.1 == (Action::CheckSource { path }),
        consistent(r.0@),
{
    run_on(
        RefType::Path(path),
        false,
        DependencyInstall::System,
        Repo::Static { path: installation, user: true },
    )
}

/// The `i`-th event leads from the `i`-th state of a run to the next one.
pub open spec fn linked(states: Seq<PipelineView>, events: Seq<Event>, i: int) -> bool {
    follows(states[i], events[i], states[i + 1])
}

/// `states` is what a run goes through while the driver gives `events`: one
/// state before the first event and one after each.
pub open spec fn is_run(states: Seq<PipelineView>, events: Seq<Event>) -> bool {
    &&& states.len() == events.len() + 1
    &&& consistent(states[0])
    &&& forall|i: int| 0 <= i < events.len() ==> #[trigger] linked(states, events, i)
}

/// One step keeps a run consistent.
pub proof fn step_keeps_consistent(before: PipelineView, event: Event, after: PipelineView)
    requires
        consistent(before),
        follows(before, event, after),
    ensures
        consistent(after),
{
}

/// One step moves a run forward in the order of the stages, until it is
/// finished.
pub proof fn step_moves_forward(before: PipelineView, event: Event, after: PipelineView)
    requires
        follows(before, event, after),
    ensures
        before.stage is Finished ==> after.stage is Finished,
        !(before.stage is Finished) ==> rank(before.stage) < rank(after.stage),
{
}

/// Every state of a run is consistent, and a later state stands no earlier in
/// the order of the stages.
pub proof fn run_moves_forward(states: Seq<PipelineView>, events: Seq<Event>, i: int, j: int)
    requires
        is_run(states, events),
        0 <= i <= j < states.len(),
    ensures
        consistent(states[j]),
        rank(states[i].stage) <= rank(states[j].stage),
        i < j && !(states[i].stage is Finished) ==> rank(states[i].stage) < rank(states[j].stage),
    decreases j,
{
    if j > 0 {
        assert(linked(states, events, j - 1));
        if i < j {
            run_moves_forward(states, events, i, j - 1);
        } else {
            run_moves_forward(states, events, 0, j - 1);
        }
        step_keeps_consistent(states[j - 1], events[j - 1], states[j]);
        step_moves_forward(states[j - 1], events[j - 1], states[j]);
    }
}

/// A run that is over has had its repository torn down, whether it ended in
/// success or in an error and whatever the driver answered on the way: the
/// teardown was asked for at one moment before the end, and from that moment
/// on the run asked for nothing that touches the repository.
pub proof fn finished_run_is_torn_down(states: Seq<PipelineView>, events: Seq<Event>, n: int)
    requires
        is_run(states, events),
        0 <= n < states.len(),
        states[n].stage is Finished,
        !(states[0].stage is Finished),
    ensures
        states[n].destroyed,
        exists|k: int|
            0 <= k < n && (#[trigger] states[k]).stage is TearingDown && forall|m: int|
                k <= m < states.len() ==> !touches_repository((#[trigger] states[m]).stage),
    decreases n,
{
    run_moves_forward(states, events, 0, n);
    assert(n > 0);
    assert(linked(states, events, n - 1));
    if states[n - 1].stage is Finished {
        finished_run_is_torn_down(states, events, n - 1);
    } else {
        let k = n - 1;
        assert(states[k].stage is TearingDown);
        assert forall|m: int| k <= m < states.len() implies !touches_repository(
            (#[trigger] states[m]).stage,
        ) by {
            run_moves_forward(states, events, k, m);
        }
    }
}

/// The teardown is asked for at most once in a run.
pub proof fn teardown_is_asked_once(
    states: Seq<PipelineView>,
    events: Seq<Event>,
    i: int,
    j: int,
)
    requires
        is_run(states, events),
        0 <= i < j < states.len(),
        states[i].stage is TearingDown,
    ensures
        states[j].stage is Finished,
{
    run_moves_forward(states, events, i, j);
}

/// A run that gets to the end of a stage other than the two of the runtime's
/// install has had a good answer at that stage; and an error, once kept, ends
/// the run: the next thing asked for is the teardown.
pub proof fn only_runtime_failures_are_absorbed(
    before: PipelineView,
    event: Event,
    after: PipelineView,
)
    requires
        follows(before, event, after),
        !(before.stage is Finished),
        !accepts(before.stage, event),
    ensures
        recoverable(before.stage) ==> after.stage == successor(before.stage, before.offline)
            && after.failure == before.failure && after.warnings == before.warnings + 1,
        !recoverable(before.stage) ==> after.stage is TearingDown && after.failure is Some,
{
}

/// When the application's transaction is run, the runtime's transaction has
/// been run to its end before, and its repository has been made a source of
/// the application's: in a run with network, the two states before the one
/// that asks to run the application's transaction are the one that asked to
/// run the runtime's and the one that asked to register the source.
pub proof fn application_runs_after_dependency(
    states: Seq<PipelineView>,
    events: Seq<Event>,
    i: int,
)
    requires
        is_run(states, events),
        0 <= i < states.len(),
        rank(states[0].stage) <= rank(Stage::Subscribing),
        !states[0].offline,
        states[i].stage is RunningApplication,
    ensures
        i >= 2,
        states[i - 1].stage is RegisteringSideload,
        states[i - 2].stage is RunningDependency,
{
    assert(i >= 1);
    assert(linked(states, events, i - 1));
    run_moves_forward(states, events, 0, i - 1);
    assert(states[i - 1].stage is RegisteringSideload);
    assert(i >= 2);
    assert(linked(states, events, i - 2));
    run_moves_forward(states, events, 0, i - 2);
    offline_never_changes(states, events, i - 2);
}

/// Whether a run is offline does not change, nor what it runs or where.
pub proof fn offline_never_changes(states: Seq<PipelineView>, events: Seq<Event>, i: int)
    requires
        is_run(states, events),
        0 <= i < states.len(),
    ensures
        states[i].offline == states[0].offline,
        states[i].target == states[0].target,
        states[i].deps == states[0].deps,
        states[i].remote == states[0].remote,
        states[i].runtime_bundle == states[0].runtime_bundle,
        states[i].repo == states[0].repo,
    decreases i,
{
    if i > 0 {
        assert(linked(states, events, i - 1));
        offline_never_changes(states, events, i - 1);
    }
}

/// Nothing is asked of the repository before a bundle file is known to
/// exist: a run on a bundle starts by looking for the file, and where the file
/// is missing the run keeps the error with the path, asks for the teardown and
/// then finishes with that error.
pub proof fn missing_bundle_opens_nothing(
    start: PipelineView,
    event: Event,
    after: PipelineView,
)
    requires
        start.stage is CheckingSource,
        consistent(start),
        event == (Event::SourceChecked { exists: false }),
        follows(start, event, after),
    ensures
        !touches_repository(start.stage),
        after.stage is TearingDown,
        after.failure matches Some(FlatrunError::FileNotFound(p)) && start.target == RefType::Path(
            p,
        ),
{
}


} // verus!
