//! The bridge out of the sandbox. A process that runs inside a sandbox can
//! neither make a repository nor run a transaction, so it has a helper do
//! both outside. The bridge says how the helper is called, reads what the
//! helper writes, and tidies up when the helper falls silent.
//!
//! The helper is called with its arguments in a fixed order: a verb, the
//! repository of the run, the repository of the runtimes and the bundle file.
//! Each path is marked as one that the sandbox can see or cannot see, so that
//! whoever starts the helper can hand it a path that means the same outside.
//!
//! The helper's standard output is the only way back. Its end, or a failure
//! to read it, means that the helper is done, whether or not it ever said that
//! the application runs; the bridge then closes the observer, removes the
//! repository of the run and returns.

use vstd::prelude::*;
use crate::error::FlatrunError;
use crate::gui::{AppState, Message, ProgressInfo, RunApp};
use crate::outside::{join_path, path_join};
use crate::text::{chars_of, slice_of, starts_with, str_starts_with};
use crate::protocol::{decode, decode_line, Decoded, DecodedRecord, ProgressRecord};

verus! {

/// One argument of the helper.
#[derive(Clone, Debug, PartialEq, Eq)]
pub enum CmdArg {
    /// A text that is handed on as it is.
    Text(String),
    /// A path. `in_sandbox` tells whether the sandbox can see it.
    Path { path: String, in_sandbox: bool },
}

/// How the helper is called.
#[derive(Debug, PartialEq, Eq)]
pub struct HelperCommand {
    /// The program and then its arguments.
    pub args: Vec<CmdArg>,
    /// The environment variables that are set for it.
    pub envs: Vec<(String, CmdArg)>,
}

/// The argument is the text `text`.
pub open spec fn is_text(arg: CmdArg, text: Seq<char>) -> bool {
    arg matches CmdArg::Text(t) && t@ == text
}

/// The argument is the path `path`, seen by the sandbox or not.
pub open spec fn is_path(arg: CmdArg, path: Seq<char>, in_sandbox: bool) -> bool {
    arg matches CmdArg::Path { path: p, in_sandbox: s } && p@ == path && s == in_sandbox
}

/// The helper program, as the sandbox sees it.
pub open spec fn helper_program() -> Seq<char> {
    "/app/libexec/flatrun-agent"@
}

/// The verb that has the helper install and run a bundle.
pub open spec fn install_run_bundle_verb() -> Seq<char> {
    "install-run-bundle"@
}

/// The directory under which the sandbox shows the application's own files.
pub open spec fn sandbox_app_root() -> Seq<char> {
    "/app/"@
}

/// What the helper is handed for an argument, where `app_path` is the
/// directory outside the sandbox that the sandbox shows as `/app`.
///
/// A text is handed on as it is, and so is a path that the sandbox cannot
/// see, for it is a path of the outside already. A path that the sandbox sees
/// under `/app` is handed on as the same file under `app_path`. Any other
/// path that the sandbox sees lies at the same place outside.
pub open spec fn on_host(arg: CmdArg, app_path: Seq<char>) -> Seq<char> {
    match arg {
        CmdArg::Text(t) => t@,
        CmdArg::Path { path, in_sandbox } => if in_sandbox && starts_with(
            path@,
            sandbox_app_root(),
        ) {
            path_join(
                app_path,
                path@.subrange(sandbox_app_root().len() as int, path@.len() as int),
            )
        } else {
            path@
        },
    }
}

impl CmdArg {
    /// A text argument.
    pub fn new_string(text: String) -> (a: CmdArg)
        ensures
            a == CmdArg::Text(text),
    {
        CmdArg::Text(text)
    }

    /// What the helper is handed for this argument, where `app_path` is the
    /// directory outside the sandbox that the sandbox shows as `/app`.
    pub fn to_host(&self, app_path: &str) -> (text: String)
        ensures
            text@ == on_host(*self, app_path@),
    {
        proof {
            reveal_strlit("/app/");
        }
        match self {
            CmdArg::Text(t) => t.clone(),
            CmdArg::Path { path, in_sandbox } => if *in_sandbox && str_starts_with(
                path.as_str(),
                "/app/",
            ) {
                let n: usize = chars_of(path.as_str()).len();
                let inner = slice_of(path.as_str(), 5, n);
                join_path(app_path, inner.as_str())
            } else {
                path.clone()
            },
        }
    }

    /// A path argument with its mark.
    pub fn new_path(path: &str, in_sandbox: bool) -> (a: CmdArg)
        ensures
            is_path(a, path@, in_sandbox),
    {
        CmdArg::Path { path: path.to_owned(), in_sandbox }
    }
}

/// The call that has the helper install the bundle at `bundle_path` into the
/// repository at `temp_repo`, with runtimes at `deps_repo`, and run it.
///
/// The helper program and the repository of the runtimes lie where the
/// sandbox sees them; the repository of the run and the bundle do not. The
/// helper logs at the level `DEBUG`.
pub fn helper_command(temp_repo: &str, deps_repo: &str, bundle_path: &str) -> (c: HelperCommand)
    ensures
        c.args@.len() == 5,
        is_path(c.args@[0], helper_program(), true),
        is_text(c.args@[1], install_run_bundle_verb()),
        is_path(c.args@[2], temp_repo@, false),
        is_path(c.args@[3], deps_repo@, true),
        is_path(c.args@[4], bundle_path@, false),
        c.envs@.len() == 1,
        c.envs@[0].0@ == "RUST_LOG"@,
        is_text(c.envs@[0].1, "DEBUG"@),
{
    let mut args: Vec<CmdArg> = Vec::new();
    args.push(CmdArg::new_path("/app/libexec/flatrun-agent", true));
    args.push(CmdArg::new_string("install-run-bundle".to_owned()));
    args.push(CmdArg::new_path(temp_repo, false));
    args.push(CmdArg::new_path(deps_repo, true));
    args.push(CmdArg::new_path(bundle_path, false));
    let mut envs: Vec<(String, CmdArg)> = Vec::new();
    envs.push(("RUST_LOG".to_owned(), CmdArg::new_string("DEBUG".to_owned())));
    HelperCommand { args, envs }
}

/// Where the bridge stands.
#[derive(Clone, Copy, Debug, PartialEq, Eq, Structural)]
pub enum BridgeStage {
    /// The helper is being started.
    Spawning,
    /// The helper's output is read.
    Reading,
    /// The observer is told to close.
    Closing,
    /// The repository of the run is removed.
    Cleaning,
    /// The bridge has returned.
    Done,
}

/// What the driver reports to the bridge.
#[derive(Clone, Debug, PartialEq, Eq)]
pub enum BridgeEvent {
    /// The helper runs under this process id.
    Spawned { pid: i32 },
    /// The helper could not be started; what went wrong.
    SpawnFailed(String),
    /// One line of the helper's output, without its end of line.
    Line(String),
    /// The output has ended, or reading it has failed.
    EndOfStream,
    /// The observer has taken the message.
    Delivered,
    /// The observer is gone.
    DeliveryFailed,
    /// The directory is removed, or could not be.
    Removed,
}

/// What the driver does next.
#[derive(Debug, PartialEq, Eq)]
pub enum BridgeAction {
    /// Start the helper.
    Spawn(HelperCommand),
    /// Read the next line.
    ReadNext,
    /// Hand the message to the observer.
    Deliver(Message),
    /// Remove the directory of the run's repository.
    RemoveRepository { path: String },
    /// Return to the caller.
    Return(Result<(), FlatrunError>),
}

/// The bridge's answer as contracts see it.
pub enum Reply {
    ReadNext,
    DeliverProgress(ProgressRecord),
    DeliverFinished(i32),
    DeliverClose,
    RemoveRepository(Seq<char>),
    Return(Option<Seq<char>>),
}

/// The bridge as contracts see it.
pub struct BridgeView {
    pub stage: BridgeStage,
    /// Is anyone told what the helper writes?
    pub observed: bool,
    /// Has the observer been told that the application runs?
    pub announced: bool,
    /// The helper's process id, once it runs.
    pub helper: Option<i32>,
    /// Why the helper could not be started, if it could not.
    pub failure: Option<Seq<char>>,
    /// The directory of the run's repository.
    pub temp_repo: Seq<char>,
}

/// The bridge after an event.
pub open spec fn bridge_after(v: BridgeView, event: BridgeEvent) -> BridgeView {
    match v.stage {
        BridgeStage::Spawning => match event {
            BridgeEvent::Spawned { pid } => BridgeView {
                stage: BridgeStage::Reading,
                helper: Some(pid),
                ..v
            },
            BridgeEvent::SpawnFailed(why) => BridgeView {
                stage: BridgeStage::Cleaning,
                failure: Some(why@),
                ..v
            },
            _ => BridgeView {
                stage: BridgeStage::Cleaning,
                failure: Some("the helper was not started"@),
                ..v
            },
        },
        BridgeStage::Reading => match event {
            BridgeEvent::Line(line) => BridgeView {
                announced: v.announced || (v.observed && decode_line(line@) is Running),
                ..v
            },
            BridgeEvent::Delivered => v,
            _ => BridgeView {
                stage: if v.observed {
                    BridgeStage::Closing
                } else {
                    BridgeStage::Cleaning
                },
                ..v
            },
        },
        BridgeStage::Closing => BridgeView { stage: BridgeStage::Cleaning, ..v },
        BridgeStage::Cleaning => BridgeView { stage: BridgeStage::Done, ..v },
        BridgeStage::Done => v,
    }
}

/// The bridge's answer to an event.
pub open spec fn reply_to(v: BridgeView, event: BridgeEvent) -> Reply {
    match bridge_after(v, event).stage {
        BridgeStage::Spawning => Reply::ReadNext,
        BridgeStage::Reading => match event {
            BridgeEvent::Line(line) => if !v.observed || !(v.stage is Reading) {
                Reply::ReadNext
            } else {
                match decode_line(line@) {
                    DecodedRecord::Progress(record) => Reply::DeliverProgress(record),
                    DecodedRecord::Running => if v.announced || v.helper is None {
                        Reply::ReadNext
                    } else {
                        Reply::DeliverFinished(v.helper->0)
                    },
                    DecodedRecord::Ignored => Reply::ReadNext,
                }
            },
            _ => Reply::ReadNext,
        },
        BridgeStage::Closing => Reply::DeliverClose,
        BridgeStage::Cleaning => Reply::RemoveRepository(v.temp_repo),
        BridgeStage::Done => Reply::Return(v.failure),
    }
}

/// The message carries the progress record.
pub open spec fn carries(message: Message, record: ProgressRecord) -> bool {
    message matches Message::Progress(fields) && fields.0@ == record.repo && fields.1@
        == record.action && fields.2@ == record.app_ref && fields.3@ == record.message
        && fields.4 == record.percent
}

/// The action is the answer.
pub open spec fn shows(action: BridgeAction, reply: Reply) -> bool {
    match reply {
        Reply::ReadNext => action == BridgeAction::ReadNext,
        Reply::DeliverProgress(record) => action matches BridgeAction::Deliver(m) && carries(
            m,
            record,
        ),
        Reply::DeliverFinished(pid) => action == BridgeAction::Deliver(Message::Finished(pid)),
        Reply::DeliverClose => action == BridgeAction::Deliver(Message::Close),
        Reply::RemoveRepository(path) => action matches BridgeAction::RemoveRepository { path: p }
            && p@ == path,
        Reply::Return(failure) => action matches BridgeAction::Return(outcome) && match failure {
            Some(why) => outcome matches Err(FlatrunError::Launch(t)) && t@ == why,
            None => outcome is Ok,
        },
    }
}

/// The reader of a helper's output.
#[derive(Debug)]
pub struct Bridge {
    stage: BridgeStage,
    observed: bool,
    announced: bool,
    helper: Option<i32>,
    failure: Option<String>,
    temp_repo: String,
}

impl View for Bridge {
    type V = BridgeView;

    closed spec fn view(&self) -> BridgeView {
        BridgeView {
            stage: self.stage,
            observed: self.observed,
            announced: self.announced,
            helper: self.helper,
            failure: match self.failure {
                Some(why) => Some(why@),
                None => None,
            },
            temp_repo: self.temp_repo@,
        }
    }
}

impl Bridge {
    /// Where the bridge stands.
    pub fn stage(&self) -> (s: BridgeStage)
        ensures
            s == self@.stage,
    {
        self.stage
    }

    /// Has the observer been told that the application runs?
    pub fn announced(&self) -> (b: bool)
        ensures
            b == self@.announced,
    {
        self.announced
    }

    /// Takes in what the driver reports and says what to do next.
    ///
    /// While the output is read, each progress record is handed to the
    /// observer as soon as it is read, the first line with the token is
    /// handed on as `Finished` with the helper's process id, and every other
    /// line is skipped. When the output ends, or the observer is gone, the
    /// observer is told to close; then the repository of the run is removed;
    /// then the bridge returns. Without an observer nothing is handed on.
    pub fn on_event(self, event: BridgeEvent) -> (r: (Bridge, BridgeAction))
        ensures
            r.0@ == bridge_after(self@, event),
            shows(r.1, reply_to(self@, event)),
    {
        let Bridge { stage, observed, announced, helper, failure, temp_repo } = self;
        match stage {
            BridgeStage::Spawning => match event {
                BridgeEvent::Spawned { pid } => (
                    Bridge {
                        stage: BridgeStage::Reading,
                        observed,
                        announced,
                        helper: Some(pid),
                        failure,
                        temp_repo,
                    },
                    BridgeAction::ReadNext,
                ),
                BridgeEvent::SpawnFailed(why) => {
                    let path = temp_repo.clone();
                    (
                        Bridge {
                            stage: BridgeStage::Cleaning,
                            observed,
                            announced,
                            helper,
                            failure: Some(why),
                            temp_repo,
                        },
                        BridgeAction::RemoveRepository { path },
                    )
                },
                _ => {
                    let path = temp_repo.clone();
                    (
                        Bridge {
                            stage: BridgeStage::Cleaning,
                            observed,
                            announced,
                            helper,
                            failure: Some("the helper was not started".to_owned()),
                            temp_repo,
                        },
                        BridgeAction::RemoveRepository { path },
                    )
                },
            },
            BridgeStage::Reading => match event {
                BridgeEvent::Line(line) => {
                    let decoded = if observed {
                        decode(line.as_str())
                    } else {
                        Decoded::Ignored
                    };
                    let mut now_announced = announced;
                    let action = match decoded {
                        Decoded::Progress(e) => BridgeAction::Deliver(
                            Message::Progress((e.repo, e.action, e.app_ref, e.message, e.percent)),
                        ),
                        Decoded::Running => {
                            now_announced = true;
                            match helper {
                                Some(pid) => if announced {
                                    BridgeAction::ReadNext
                                } else {
                                    BridgeAction::Deliver(Message::Finished(pid))
                                },
                                None => BridgeAction::ReadNext,
                            }
                        },
                        Decoded::Ignored => BridgeAction::ReadNext,
                    };
                    (
                        Bridge {
                            stage,
                            observed,
                            announced: now_announced,
                            helper,
                            failure,
                            temp_repo,
                        },
                        action,
                    )
                },
                BridgeEvent::Delivered => (
                    Bridge { stage, observed, announced, helper, failure, temp_repo },
                    BridgeAction::ReadNext,
                ),
                _ => if observed {
                    (
                        Bridge {
                            stage: BridgeStage::Closing,
                            observed,
                            announced,
                            helper,
                            failure,
                            temp_repo,
                        },
                        BridgeAction::Deliver(Message::Close),
                    )
                } else {
                    let path = temp_repo.clone();
                    (
                        Bridge {
                            stage: BridgeStage::Cleaning,
                            observed,
                            announced,
                            helper,
                            failure,
                            temp_repo,
                        },
                        BridgeAction::RemoveRepository { path },
                    )
                },
            },
            BridgeStage::Closing => {
                let path = temp_repo.clone();
                (
                    Bridge {
                        stage: BridgeStage::Cleaning,
                        observed,
                        announced,
                        helper,
                        failure,
                        temp_repo,
                    },
                    BridgeAction::RemoveRepository { path },
                )
            },
            BridgeStage::Cleaning | BridgeStage::Done => {
                let outcome = match &failure {
                    Some(why) => Err(FlatrunError::Launch(why.clone())),
                    None => Ok(()),
                };
                (
                    Bridge {
                        stage: BridgeStage::Done,
                        observed,
                        announced,
                        helper,
                        failure,
                        temp_repo,
                    },
                    BridgeAction::Return(outcome),
                )
            },
        }
    }
}

/// The bridge for the run of the bundle at `bundle_path` in the repository at
/// `temp_repo`: the first thing to do is to start the helper. `observed` says
/// whether anyone is told what the helper writes.
pub fn run_bundle_inner(temp_repo: &str, deps_repo: &str, bundle_path: &str, observed: bool) -> (r: (
    Bridge,
    BridgeAction,
))
    ensures
        r.0@ == (BridgeView {
            stage: BridgeStage::Spawning,
            observed,
            announced: false,
            helper: None,
            failure: None,
            temp_repo: temp_repo@,
        }),
        r.1 matches BridgeAction::Spawn(c) && {
            &&& c.args@.len() == 5
            &&& is_path(c.args@[0], helper_program(), true)
            &&& is_text(c.args@[1], install_run_bundle_verb())
            &&& is_path(c.args@[2], temp_repo@, false)
            &&& is_path(c.args@[3], deps_repo@, true)
            &&& is_path(c.args@[4], bundle_path@, false)
        },
{
    let command = helper_command(temp_repo, deps_repo, bundle_path);
    (
        Bridge {
            stage: BridgeStage::Spawning,
            observed,
            announced: false,
            helper: None,
            failure: None,
            temp_repo: temp_repo.to_owned(),
        },
        BridgeAction::Spawn(command),
    )
}

/// How the bundle at a path is run from inside the sandbox.
#[derive(Debug)]
pub enum BundleRun {
    /// With a window that shows the progress: the window at its start. The
    /// window starts the bridge by itself once it is shown.
    Window(ProgressInfo),
    /// Without a window: the bridge, and the first thing to do.
    Headless(Bridge, BridgeAction),
}

/// The name under which the window is known to the desktop.
pub open spec fn window_id() -> Seq<char> {
    "io.github.ryanabx.flatrun"@
}

/// The name under which the window is known to the desktop.
pub fn application_id() -> (id: String)
    ensures
        id@ == window_id(),
{
    "io.github.ryanabx.flatrun".to_owned()
}

/// Runs the bundle at `bundle_path` with the repositories at `temp_repo` and
/// `deps_repo`: in a window where `gui` says so, and else by the bridge
/// alone, with no one to tell of the progress.
pub fn run_bundle(bundle_path: String, gui: bool, temp_repo: String, deps_repo: String) -> (r:
    BundleRun)
    ensures
        gui ==> (r matches BundleRun::Window(w) && w.temp_repo == temp_repo && w.deps_repo
            == deps_repo && w.app_state == AppState::LoadingFile(RunApp::Bundle(bundle_path))
            && w.process is None && w.progress == 0),
        !gui ==> (r matches BundleRun::Headless(bridge, first) && bridge@ == (BridgeView {
            stage: BridgeStage::Spawning,
            observed: false,
            announced: false,
            helper: None,
            failure: None,
            temp_repo: temp_repo@,
        }) && first is Spawn),
{
    if gui {
        BundleRun::Window(
            ProgressInfo::new((temp_repo, deps_repo, AppState::LoadingFile(RunApp::Bundle(bundle_path)))),
        )
    } else {
        let (bridge, first) = run_bundle_inner(
            temp_repo.as_str(),
            deps_repo.as_str(),
            bundle_path.as_str(),
            false,
        );
        BundleRun::Headless(bridge, first)
    }
}

/// The bridge after a run of events.
pub open spec fn bridge_after_all(v: BridgeView, events: Seq<BridgeEvent>) -> BridgeView
    decreases events.len(),
{
    if events.len() == 0 {
        v
    } else {
        bridge_after(bridge_after_all(v, events.drop_last()), events.last())
    }
}

/// The answers to a run of events, one for each.
pub open spec fn replies(v: BridgeView, events: Seq<BridgeEvent>) -> Seq<Reply> {
    Seq::new(
        events.len(),
        |i: int| reply_to(bridge_after_all(v, events.take(i)), events[i]),
    )
}

/// Once the observer has been told that the application runs, it stays told.
pub proof fn announced_stays(v: BridgeView, events: Seq<BridgeEvent>)
    requires
        v.announced,
    ensures
        bridge_after_all(v, events).announced,
    decreases events.len(),
{
    if events.len() > 0 {
        announced_stays(v, events.drop_last());
    }
}

/// The observer is told at most once that the application runs, however
/// often the token shows up in the helper's output: of two answers to a run
/// of events, at most the earlier one is `Finished`.
pub proof fn running_is_announced_once(v: BridgeView, events: Seq<BridgeEvent>, i: int, j: int)
    requires
        0 <= i < j < events.len(),
        replies(v, events)[i] is DeliverFinished,
    ensures
        !(replies(v, events)[j] is DeliverFinished),
{
    let at_i = bridge_after_all(v, events.take(i));
    let after_i = bridge_after_all(v, events.take(i + 1));
    assert(events.take(i + 1).drop_last() =~= events.take(i));
    assert(events.take(i + 1).last() == events[i]);
    assert(after_i == bridge_after(at_i, events[i]));
    assert(after_i.announced);
    let rest = events.subrange(i + 1, j);
    lemma_after_all_split(v, events.take(j), i + 1);
    assert(events.take(j).take(i + 1) =~= events.take(i + 1));
    assert(events.take(j).subrange(i + 1, j) =~= rest);
    announced_stays(after_i, rest);
}

/// A run of events can be taken in in two parts.
pub proof fn lemma_after_all_split(v: BridgeView, events: Seq<BridgeEvent>, k: int)
    requires
        0 <= k <= events.len(),
    ensures
        bridge_after_all(v, events) == bridge_after_all(
            bridge_after_all(v, events.take(k)),
            events.subrange(k, events.len() as int),
        ),
    decreases events.len(),
{
    let tail = events.subrange(k, events.len() as int);
    if k == events.len() {
        assert(events.take(k) =~= events);
        assert(tail.len() == 0);
    } else {
        lemma_after_all_split(v, events.drop_last(), k);
        assert(events.drop_last().take(k) =~= events.take(k));
        assert(events.drop_last().subrange(k, events.len() - 1) =~= tail.drop_last());
        assert(tail.last() == events.last());
    }
}

/// No progress record waits or is lost: while the output is read and an
/// observer listens, the answer to a line that is a progress record is to
/// hand that record on. So whatever is handed on later, the token among it,
/// comes after every progress record that the helper wrote before.
pub proof fn progress_is_delivered_in_place(
    v: BridgeView,
    events: Seq<BridgeEvent>,
    i: int,
    line: String,
)
    requires
        0 <= i < events.len(),
        events[i] == BridgeEvent::Line(line),
        bridge_after_all(v, events.take(i)).stage is Reading,
        bridge_after_all(v, events.take(i)).observed,
    ensures
        decode_line(line@) matches DecodedRecord::Progress(record) ==> replies(v, events)[i]
            == Reply::DeliverProgress(record),
        !(decode_line(line@) is Running) ==> !(replies(v, events)[i] is DeliverFinished),
{
}

/// When the helper's output ends, the bridge returns, whether or not the
/// application was ever said to run: whatever the driver reports next, the
/// bridge is done after at most three more answers, and its last answers are
/// to remove the repository of the run and to return.
pub proof fn end_of_stream_returns(
    v: BridgeView,
    first: BridgeEvent,
    second: BridgeEvent,
    third: BridgeEvent,
)
    requires
        v.stage is Reading,
    ensures
        ({
            let a = bridge_after(v, BridgeEvent::EndOfStream);
            let b = bridge_after(a, first);
            let c = bridge_after(b, second);
            &&& !(a.stage is Reading)
            &&& c.stage is Done
            &&& reply_to(c, third) is Return
            &&& reply_to(v, BridgeEvent::EndOfStream) is RemoveRepository || reply_to(a, first)
                is RemoveRepository
        }),
{
}

} // verus!
