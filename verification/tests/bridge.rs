use flatrun::bridge::{
    application_id, helper_command, run_bundle, run_bundle_inner, Bridge, BridgeAction,
    BridgeEvent, BridgeStage, BundleRun, CmdArg,
};
use flatrun::error::FlatrunError;
use flatrun::gui::{AppState, Message, RunApp};

fn line(text: &str) -> BridgeEvent {
    BridgeEvent::Line(text.to_string())
}

fn reading(observed: bool) -> Bridge {
    let (b, first) = run_bundle_inner("/c/.tmpXXXXXXX", "/d/deps", "/home/u/a.flatpak", observed);
    assert!(matches!(first, BridgeAction::Spawn(_)));
    let (b, a) = b.on_event(BridgeEvent::Spawned { pid: 900 });
    assert_eq!(a, BridgeAction::ReadNext);
    assert_eq!(b.stage(), BridgeStage::Reading);
    b
}

/// Feeds the events to the bridge and returns its answers.
fn feed(mut b: Bridge, events: Vec<BridgeEvent>) -> (Bridge, Vec<BridgeAction>) {
    let mut answers = Vec::new();
    for e in events {
        let (next, a) = b.on_event(e);
        b = next;
        answers.push(a);
    }
    (b, answers)
}

fn progress(repo: &str, action: &str, app_ref: &str, message: &str, percent: u8) -> BridgeAction {
    BridgeAction::Deliver(Message::Progress((
        repo.to_string(),
        action.to_string(),
        app_ref.to_string(),
        message.to_string(),
        percent,
    )))
}

#[test]
fn the_helper_is_called_with_its_arguments_in_order() {
    let c = helper_command("/c/.tmpXXXXXXX", "/d/deps", "/home/u/a.flatpak");
    assert_eq!(
        c.args,
        vec![
            CmdArg::Path { path: "/app/libexec/flatrun-agent".to_string(), in_sandbox: true },
            CmdArg::Text("install-run-bundle".to_string()),
            CmdArg::Path { path: "/c/.tmpXXXXXXX".to_string(), in_sandbox: false },
            CmdArg::Path { path: "/d/deps".to_string(), in_sandbox: true },
            CmdArg::Path { path: "/home/u/a.flatpak".to_string(), in_sandbox: false },
        ]
    );
    assert_eq!(c.envs, vec![("RUST_LOG".to_string(), CmdArg::Text("DEBUG".to_string()))]);
}

#[test]
fn arguments_are_made_as_they_are_given() {
    assert_eq!(CmdArg::new_string("x".to_string()), CmdArg::Text("x".to_string()));
    assert_eq!(CmdArg::new_path("/p", true), CmdArg::Path { path: "/p".to_string(), in_sandbox: true });
    assert_eq!(CmdArg::new_path("/p", false), CmdArg::Path { path: "/p".to_string(), in_sandbox: false });
}

#[test]
fn the_bridge_starts_by_starting_the_helper() {
    let (b, first) = run_bundle_inner("/c/t", "/d", "/b", true);
    assert_eq!(b.stage(), BridgeStage::Spawning);
    assert!(!b.announced());
    assert_eq!(first, BridgeAction::Spawn(helper_command("/c/t", "/d", "/b")));
}

#[test]
fn progress_is_handed_on_as_it_is_read() {
    let (_, answers) = feed(
        reading(true),
        vec![
            line("DEPS::install::runtime/p/x/1::Downloading::10"),
            BridgeEvent::Delivered,
            line("some log line"),
            line("TEMP::INSTALL-BUNDLE::app/a/x/s::Installing::70"),
            BridgeEvent::Delivered,
        ],
    );
    assert_eq!(
        answers,
        vec![
            progress("DEPS", "install", "runtime/p/x/1", "Downloading", 10),
            BridgeAction::ReadNext,
            BridgeAction::ReadNext,
            progress("TEMP", "INSTALL-BUNDLE", "app/a/x/s", "Installing", 70),
            BridgeAction::ReadNext,
        ]
    );
}

#[test]
fn the_token_is_handed_on_once_and_after_the_progress_before_it() {
    let (b, answers) = feed(
        reading(true),
        vec![
            line("TEMP::INSTALL-BUNDLE::app/a/x/s::Installing::70"),
            BridgeEvent::Delivered,
            line("TEMP::INSTALL-BUNDLE::app/a/x/s::Done::100"),
            BridgeEvent::Delivered,
            line("RUNNING_APPLICATION"),
            BridgeEvent::Delivered,
            line("RUNNING_APPLICATION"),
            line("again RUNNING_APPLICATION"),
            line("TEMP::x::y::z::5"),
        ],
    );
    let finished: Vec<usize> = answers
        .iter()
        .enumerate()
        .filter(|(_, a)| matches!(a, BridgeAction::Deliver(Message::Finished(_))))
        .map(|(i, _)| i)
        .collect();
    assert_eq!(finished, vec![4]);
    assert_eq!(answers[4], BridgeAction::Deliver(Message::Finished(900)));
    assert_eq!(answers[0], progress("TEMP", "INSTALL-BUNDLE", "app/a/x/s", "Installing", 70));
    assert_eq!(answers[2], progress("TEMP", "INSTALL-BUNDLE", "app/a/x/s", "Done", 100));
    assert_eq!(answers[6], BridgeAction::ReadNext);
    assert_eq!(answers[7], BridgeAction::ReadNext);
    assert_eq!(answers[8], progress("TEMP", "x", "y", "z", 5));
    assert!(b.announced());
}

#[test]
fn a_helper_that_never_says_running_still_lets_the_bridge_return() {
    let (b, answers) = feed(
        reading(true),
        vec![
            line("DEPS::install::r::s::1"),
            BridgeEvent::Delivered,
            BridgeEvent::EndOfStream,
            BridgeEvent::Delivered,
            BridgeEvent::Removed,
        ],
    );
    assert_eq!(
        answers[2..],
        [
            BridgeAction::Deliver(Message::Close),
            BridgeAction::RemoveRepository { path: "/c/.tmpXXXXXXX".to_string() },
            BridgeAction::Return(Ok(())),
        ]
    );
    assert_eq!(b.stage(), BridgeStage::Done);
    assert!(!b.announced());
}

#[test]
fn an_empty_output_lets_the_bridge_return() {
    let (b, answers) = feed(
        reading(true),
        vec![BridgeEvent::EndOfStream, BridgeEvent::DeliveryFailed, BridgeEvent::Removed],
    );
    assert_eq!(
        answers,
        vec![
            BridgeAction::Deliver(Message::Close),
            BridgeAction::RemoveRepository { path: "/c/.tmpXXXXXXX".to_string() },
            BridgeAction::Return(Ok(())),
        ]
    );
    assert_eq!(b.stage(), BridgeStage::Done);
}

#[test]
fn an_observer_that_is_gone_ends_the_reading_but_not_the_cleanup() {
    let (b, answers) = feed(
        reading(true),
        vec![
            line("DEPS::install::r::s::1"),
            BridgeEvent::DeliveryFailed,
            BridgeEvent::DeliveryFailed,
            BridgeEvent::Removed,
        ],
    );
    assert_eq!(
        answers[1..],
        [
            BridgeAction::Deliver(Message::Close),
            BridgeAction::RemoveRepository { path: "/c/.tmpXXXXXXX".to_string() },
            BridgeAction::Return(Ok(())),
        ]
    );
    assert_eq!(b.stage(), BridgeStage::Done);
}

#[test]
fn without_an_observer_nothing_is_handed_on() {
    let (b, answers) = feed(
        reading(false),
        vec![
            line("DEPS::install::r::s::1"),
            line("RUNNING_APPLICATION"),
            BridgeEvent::EndOfStream,
            BridgeEvent::Removed,
        ],
    );
    assert_eq!(
        answers,
        vec![
            BridgeAction::ReadNext,
            BridgeAction::ReadNext,
            BridgeAction::RemoveRepository { path: "/c/.tmpXXXXXXX".to_string() },
            BridgeAction::Return(Ok(())),
        ]
    );
    assert_eq!(b.stage(), BridgeStage::Done);
}

#[test]
fn a_helper_that_does_not_start_is_an_error_after_the_cleanup() {
    let (b, _) = run_bundle_inner("/c/t", "/d", "/b", true);
    let (b, answers) = feed(b, vec![BridgeEvent::SpawnFailed("no portal".to_string()), BridgeEvent::Removed]);
    assert_eq!(
        answers,
        vec![
            BridgeAction::RemoveRepository { path: "/c/t".to_string() },
            BridgeAction::Return(Err(FlatrunError::Launch("no portal".to_string()))),
        ]
    );
    assert_eq!(b.stage(), BridgeStage::Done);
    let (b, _) = run_bundle_inner("/c/t", "/d", "/b", true);
    let (_, answers) = feed(b, vec![line("early"), BridgeEvent::Removed]);
    assert_eq!(
        answers[1],
        BridgeAction::Return(Err(FlatrunError::Launch("the helper was not started".to_string())))
    );
}

#[test]
fn a_bridge_that_is_done_stays_done() {
    let (b, _) = feed(reading(true), vec![BridgeEvent::EndOfStream, BridgeEvent::Delivered, BridgeEvent::Removed]);
    let (b, answers) = feed(b, vec![line("RUNNING_APPLICATION"), BridgeEvent::EndOfStream]);
    assert_eq!(answers, vec![BridgeAction::Return(Ok(())), BridgeAction::Return(Ok(()))]);
    assert_eq!(b.stage(), BridgeStage::Done);
}

#[test]
fn run_bundle_opens_a_window_or_the_bridge() {
    match run_bundle("/b.flatpak".to_string(), true, "/c/t".to_string(), "/d".to_string()) {
        BundleRun::Window(w) => {
            assert_eq!(w.temp_repo, "/c/t");
            assert_eq!(w.deps_repo, "/d");
            assert_eq!(w.app_state, AppState::LoadingFile(RunApp::Bundle("/b.flatpak".to_string())));
            assert_eq!(w.process, None);
            assert_eq!(w.progress, 0);
        }
        other => panic!("{:?}", other),
    }
    match run_bundle("/b.flatpak".to_string(), false, "/c/t".to_string(), "/d".to_string()) {
        BundleRun::Headless(b, first) => {
            assert_eq!(b.stage(), BridgeStage::Spawning);
            assert_eq!(first, BridgeAction::Spawn(helper_command("/c/t", "/d", "/b.flatpak")));
        }
        other => panic!("{:?}", other),
    }
    assert_eq!(application_id(), "io.github.ryanabx.flatrun");
}

#[test]
fn a_path_under_app_is_handed_on_as_it_lies_outside() {
    let outside = "/var/lib/flatpak/app/io.github.ryanabx.flatrun/current/active/files";
    assert_eq!(
        CmdArg::new_path("/app/libexec/flatrun-agent", true).to_host(outside),
        "/var/lib/flatpak/app/io.github.ryanabx.flatrun/current/active/files/libexec/flatrun-agent"
    );
    assert_eq!(CmdArg::new_path("/app/", true).to_host("/o"), "/o/");
    // seen by the sandbox, but not under /app: the same place outside
    assert_eq!(CmdArg::new_path("/home/u/.var/app/x/data/deps", true).to_host(outside), "/home/u/.var/app/x/data/deps");
    assert_eq!(CmdArg::new_path("/application", true).to_host(outside), "/application");
    assert_eq!(CmdArg::new_path("/app", true).to_host(outside), "/app");
    // not seen by the sandbox: a path of the outside already
    assert_eq!(CmdArg::new_path("/app/x", false).to_host(outside), "/app/x");
    assert_eq!(CmdArg::new_path("/home/u/a.flatpak", false).to_host(outside), "/home/u/a.flatpak");
    assert_eq!(CmdArg::Text("install-run-bundle".to_string()).to_host(outside), "install-run-bundle");
    assert_eq!(CmdArg::Text("/app/x".to_string()).to_host(outside), "/app/x");
}
