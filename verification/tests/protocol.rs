use flatrun::protocol::{
    clamp_percent, decode, running_line, Decoded, OperationKind, OperationProgress, Origin,
    ProgressEvent,
};

fn event(repo: &str, action: &str, app_ref: &str, message: &str, percent: u8) -> ProgressEvent {
    ProgressEvent {
        repo: repo.to_string(),
        action: action.to_string(),
        app_ref: app_ref.to_string(),
        message: message.to_string(),
        percent,
    }
}

fn progress_of(line: &str) -> Option<ProgressEvent> {
    match decode(line) {
        Decoded::Progress(e) => Some(e),
        _ => None,
    }
}

#[test]
fn decode_reads_a_progress_record() {
    let e = progress_of("DEPS::install::runtime/org.example.Platform/x86_64/24.08::Downloading::42")
        .unwrap();
    assert_eq!(e.repo, "DEPS");
    assert_eq!(e.action, "install");
    assert_eq!(e.app_ref, "runtime/org.example.Platform/x86_64/24.08");
    assert_eq!(e.message, "Downloading");
    assert_eq!(e.percent, 42);
}

#[test]
fn decode_takes_the_ends_of_the_range() {
    assert_eq!(progress_of("TEMP::INSTALL-BUNDLE::app/x/y/z::::0").unwrap().percent, 0);
    assert_eq!(progress_of("TEMP::INSTALL-BUNDLE::app/x/y/z::done::100").unwrap().percent, 100);
    assert_eq!(progress_of("a::b::c::d::100").unwrap().message, "d");
}

#[test]
fn decode_keeps_empty_fields() {
    let e = progress_of("::::::::7").unwrap();
    assert_eq!(e, event("", "", "", "", 7));
}

#[test]
fn decode_refuses_a_percentage_out_of_range() {
    assert!(matches!(decode("a::b::c::d::101"), Decoded::Ignored));
    assert!(matches!(decode("a::b::c::d::-1"), Decoded::Ignored));
    assert!(matches!(decode("a::b::c::d::4294967297"), Decoded::Ignored));
    assert!(matches!(decode("a::b::c::d::99999999999999999999999999"), Decoded::Ignored));
}

#[test]
fn decode_reads_a_percentage_as_an_integer_is_written() {
    assert_eq!(progress_of("a::b::c::d::+5").unwrap().percent, 5);
    assert_eq!(progress_of("a::b::c::d::007").unwrap().percent, 7);
    assert_eq!(progress_of("a::b::c::d::-0").unwrap().percent, 0);
    assert_eq!(progress_of("a::b::c::d::0000000000000000000000100").unwrap().percent, 100);
}

#[test]
fn decode_refuses_what_is_no_number() {
    for line in [
        "a::b::c::d::",
        "a::b::c::d::x",
        "a::b::c::d::4x",
        "a::b::c::d:: 4",
        "a::b::c::d::4 ",
        "a::b::c::d::+",
        "a::b::c::d::-",
        "a::b::c::d::4.0",
        "a::b::c::d::٤",
    ] {
        assert!(matches!(decode(line), Decoded::Ignored), "{}", line);
    }
}

#[test]
fn decode_counts_the_fields() {
    assert!(matches!(decode("a::b::c::4"), Decoded::Ignored));
    assert!(matches!(decode("a::b::c::d::e::4"), Decoded::Ignored));
    assert!(matches!(decode(""), Decoded::Ignored));
    assert!(matches!(decode("4"), Decoded::Ignored));
    assert!(matches!(decode("a:b:c:d:4"), Decoded::Ignored));
}

#[test]
fn decode_cuts_at_the_first_colons() {
    // three colons are a separator and then a colon
    let e = progress_of("a:::b::c::d::4").unwrap();
    assert_eq!(e.repo, "a");
    assert_eq!(e.action, ":b");
    // four colons are two separators
    assert!(matches!(decode("a::::b::c::d::4"), Decoded::Ignored));
    let e = progress_of("a::::b::c::4").unwrap();
    assert_eq!(e, event("a", "", "b", "c", 4));
}

#[test]
fn decode_sees_the_token() {
    assert!(matches!(decode("RUNNING_APPLICATION"), Decoded::Running));
    assert!(matches!(decode("  RUNNING_APPLICATION now"), Decoded::Running));
    assert!(matches!(decode("x::RUNNING_APPLICATION"), Decoded::Running));
    assert!(matches!(decode("a::b::c::RUNNING_APPLICATION::x"), Decoded::Running));
    assert!(matches!(decode("RUNNING_APPLICATIO"), Decoded::Ignored));
    assert!(matches!(decode("running_application"), Decoded::Ignored));
}

#[test]
fn a_progress_record_wins_over_the_token() {
    let e = progress_of("TEMP::install::RUNNING_APPLICATION::x::3").unwrap();
    assert_eq!(e.app_ref, "RUNNING_APPLICATION");
}

#[test]
fn decode_skips_other_output() {
    assert!(matches!(decode("[2024-05-01T10:00:00Z DEBUG agent] Runtime: runtime/x"), Decoded::Ignored));
    assert!(matches!(decode("ünïcödé ☃"), Decoded::Ignored));
}

#[test]
fn decode_handles_text_beyond_ascii() {
    let e = progress_of("DEPS::install::app/é/x/y::Téléchargement ☃::50").unwrap();
    assert_eq!(e.app_ref, "app/é/x/y");
    assert_eq!(e.message, "Téléchargement ☃");
    assert_eq!(e.percent, 50);
}

#[test]
fn every_decoded_percentage_is_in_range() {
    for p in 0..300 {
        let line = format!("a::b::c::d::{}", p);
        match decode(&line) {
            Decoded::Progress(e) => {
                assert!(p <= 100);
                assert_eq!(e.percent as i32, p);
            }
            other => {
                assert!(p > 100);
                assert!(matches!(other, Decoded::Ignored));
            }
        }
    }
}

#[test]
fn encode_writes_five_fields() {
    let e = event("DEPS", "install", "runtime/org.example.Platform/x86_64/24.08", "Downloading", 42);
    assert_eq!(
        e.encode(),
        "DEPS::install::runtime/org.example.Platform/x86_64/24.08::Downloading::42"
    );
    assert_eq!(event("TEMP", "X", "r", "", 0).encode(), "TEMP::X::r::::0");
    assert_eq!(event("TEMP", "X", "r", "m", 100).encode(), "TEMP::X::r::m::100");
    assert_eq!(event("TEMP", "X", "r", "m", 9).encode(), "TEMP::X::r::m::9");
    assert_eq!(event("TEMP", "X", "r", "m", 10).encode(), "TEMP::X::r::m::10");
    assert_eq!(event("TEMP", "X", "r", "m", 255).encode(), "TEMP::X::r::m::255");
}

#[test]
fn what_is_encoded_decodes_to_the_same() {
    for p in [0u8, 1, 9, 10, 55, 99, 100] {
        let e = event("TEMP", "INSTALL-BUNDLE", "app/org.example.App/x86_64/stable", "Working 1/2", p);
        assert_eq!(progress_of(&e.encode()), Some(e));
    }
}

#[test]
fn running_line_is_the_token() {
    assert_eq!(running_line(), "RUNNING_APPLICATION");
    assert!(matches!(decode(&running_line()), Decoded::Running));
}

#[test]
fn origin_goes_by_the_label() {
    assert_eq!(event("DEPS", "", "", "", 0).origin(), Origin::Dependency);
    assert_eq!(event("TEMP", "", "", "", 0).origin(), Origin::Application);
    assert_eq!(event("deps", "", "", "", 0).origin(), Origin::Other);
    assert_eq!(event("", "", "", "", 0).origin(), Origin::Other);
    assert_eq!(event("DEPSX", "", "", "", 0).origin(), Origin::Other);
}

#[test]
fn kind_goes_by_the_action_in_any_case() {
    assert_eq!(event("", "install", "", "", 0).kind(), OperationKind::Install);
    assert_eq!(event("", "INSTALL", "", "", 0).kind(), OperationKind::Install);
    assert_eq!(event("", "Install", "", "", 0).kind(), OperationKind::Install);
    assert_eq!(event("", "install-bundle", "", "", 0).kind(), OperationKind::InstallBundle);
    assert_eq!(event("", "INSTALL-BUNDLE", "", "", 0).kind(), OperationKind::InstallBundle);
    assert_eq!(event("", "update", "", "", 0).kind(), OperationKind::Other);
    assert_eq!(event("", "uninstall", "", "", 0).kind(), OperationKind::Other);
    assert_eq!(event("", "install ", "", "", 0).kind(), OperationKind::Other);
    assert_eq!(event("", "", "", "", 0).kind(), OperationKind::Other);
}

#[test]
fn clamp_percent_holds_the_range() {
    assert_eq!(clamp_percent(-5), 0);
    assert_eq!(clamp_percent(0), 0);
    assert_eq!(clamp_percent(37), 37);
    assert_eq!(clamp_percent(100), 100);
    assert_eq!(clamp_percent(101), 100);
    assert_eq!(clamp_percent(i32::MAX), 100);
    assert_eq!(clamp_percent(i32::MIN), 0);
}

#[test]
fn an_operation_begins_with_its_first_record() {
    let (_, first) = OperationProgress::begin(Origin::Dependency, "install", "runtime/x/y/z", "", 0);
    assert_eq!(first, event("DEPS", "install", "runtime/x/y/z", "", 0));
    let (_, first) = OperationProgress::begin(Origin::Application, "INSTALL-BUNDLE", "app/a/b/c", "s", 12);
    assert_eq!(first.encode(), "TEMP::INSTALL-BUNDLE::app/a/b/c::s::12");
}

#[test]
fn the_percentage_of_an_operation_never_falls() {
    let (mut op, first) = OperationProgress::begin(Origin::Dependency, "install", "r", "", 10);
    assert_eq!(first.percent, 10);
    assert_eq!(op.changed("a", 30).percent, 30);
    assert_eq!(op.changed("b", 20).percent, 30);
    assert_eq!(op.changed("c", -4).percent, 30);
    assert_eq!(op.changed("d", 100).percent, 100);
    assert_eq!(op.changed("e", 250).percent, 100);
    let last = op.changed("f", 0);
    assert_eq!(last, event("DEPS", "install", "r", "f", 100));
}
