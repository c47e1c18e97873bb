use flatrun::supervisor::{
    classify, ProcessHandle, ProcessState, SupervisorAction, SupervisorEvent, WaitReport,
};

fn handle(pid: i32) -> ProcessHandle {
    ProcessHandle::new(pid, "app/org.example.App/x86_64/stable".to_string()).unwrap()
}

#[test]
fn a_handle_needs_a_positive_process_id() {
    assert!(ProcessHandle::new(0, String::new()).is_none());
    assert!(ProcessHandle::new(-1, String::new()).is_none());
    assert!(ProcessHandle::new(i32::MIN, String::new()).is_none());
    let h = ProcessHandle::new(1, "r".to_string()).unwrap();
    assert_eq!(h.id(), 1);
    assert_eq!(h.current(), ProcessState::Running);
    assert_eq!(h.launched_from(), "r");
    assert_eq!(handle(i32::MAX).id(), i32::MAX);
}

#[test]
fn classify_tells_the_end_from_the_rest() {
    assert_eq!(classify(WaitReport::Failed), None);
    assert_eq!(classify(WaitReport::NoChange), None);
    assert_eq!(classify(WaitReport::Changed { exited: false, signaled: false }), None);
    assert_eq!(classify(WaitReport::Changed { exited: true, signaled: false }), Some(ProcessState::Exited));
    assert_eq!(classify(WaitReport::Changed { exited: false, signaled: true }), Some(ProcessState::Signaled));
    assert_eq!(classify(WaitReport::Changed { exited: true, signaled: true }), Some(ProcessState::Exited));
}

#[test]
fn the_watch_begins_with_a_poll() {
    assert_eq!(handle(77).supervise(), SupervisorAction::Poll { pid: 77 });
}

#[test]
fn a_poll_without_an_end_is_followed_by_a_pause() {
    for report in [
        WaitReport::Failed,
        WaitReport::NoChange,
        WaitReport::Changed { exited: false, signaled: false },
    ] {
        let (h, a) = handle(77).on_event(SupervisorEvent::Polled(report));
        assert_eq!(a, SupervisorAction::Sleep);
        assert_eq!(h.current(), ProcessState::Running);
        let (h, a) = h.on_event(SupervisorEvent::Slept);
        assert_eq!(a, SupervisorAction::Poll { pid: 77 });
        assert_eq!(h.current(), ProcessState::Running);
    }
}

#[test]
fn an_interrupt_reaches_the_process_and_the_watch_ends_signaled() {
    let h = handle(4242);
    assert_eq!(h.supervise(), SupervisorAction::Poll { pid: 4242 });
    let (h, a) = h.on_event(SupervisorEvent::Polled(WaitReport::NoChange));
    assert_eq!(a, SupervisorAction::Sleep);
    // the interrupt arrives while the application runs
    let (h, a) = h.on_event(SupervisorEvent::Interrupt(2));
    assert_eq!(a, SupervisorAction::Forward { pid: 4242, signal: 2 });
    assert_eq!(h.current(), ProcessState::Running);
    let (h, a) = h.on_event(SupervisorEvent::Forwarded { delivered: true });
    assert_eq!(a, SupervisorAction::Poll { pid: 4242 });
    let (h, a) = h.on_event(SupervisorEvent::Polled(WaitReport::Changed { exited: false, signaled: true }));
    assert_eq!(a, SupervisorAction::Finish(ProcessState::Signaled));
    assert_eq!(h.current(), ProcessState::Signaled);
    assert_eq!(h.id(), 4242);
}

#[test]
fn a_signal_that_is_not_delivered_does_not_end_the_watch() {
    let (h, _) = handle(9).on_event(SupervisorEvent::Interrupt(15));
    let (h, a) = h.on_event(SupervisorEvent::Forwarded { delivered: false });
    assert_eq!(a, SupervisorAction::Poll { pid: 9 });
    assert_eq!(h.current(), ProcessState::Running);
}

#[test]
fn any_signal_is_forwarded_under_its_own_number() {
    for signal in [1, 2, 15, 64, -3, 0] {
        let (_, a) = handle(5).on_event(SupervisorEvent::Interrupt(signal));
        assert_eq!(a, SupervisorAction::Forward { pid: 5, signal });
    }
}

#[test]
fn an_exit_ends_the_watch() {
    let (h, a) = handle(5).on_event(SupervisorEvent::Polled(WaitReport::Changed { exited: true, signaled: false }));
    assert_eq!(a, SupervisorAction::Finish(ProcessState::Exited));
    assert_eq!(h.current(), ProcessState::Exited);
    assert_eq!(h.supervise(), SupervisorAction::Finish(ProcessState::Exited));
}

#[test]
fn an_ended_process_is_left_alone() {
    let (mut h, _) = handle(5).on_event(SupervisorEvent::Polled(WaitReport::Changed { exited: true, signaled: false }));
    for event in [
        SupervisorEvent::Interrupt(2),
        SupervisorEvent::Slept,
        SupervisorEvent::Forwarded { delivered: true },
        SupervisorEvent::Polled(WaitReport::Changed { exited: false, signaled: true }),
        SupervisorEvent::Polled(WaitReport::NoChange),
    ] {
        let (next, a) = h.on_event(event);
        assert_eq!(a, SupervisorAction::Finish(ProcessState::Exited));
        assert_eq!(next.current(), ProcessState::Exited);
        h = next;
    }
}
