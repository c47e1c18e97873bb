use flatrun::config::{FlatpakHandle, RunConfig, UserConfig};
use flatrun::error::{ErrorClass, FlatrunError};
use flatrun::flatpak_repo::{FlatpakRepo, StorageType};
use flatrun::gui::{AppState, Command, Message, ProgressInfo, RunApp};
use flatrun::protocol::OperationKind;
use flatrun::reference::Flatpak;
use flatrun::repo::Repo;
use flatrun::run_temp::{run_no_install, Message as RunMessage, RunPlan, RunRequest};

fn rc(home: Option<&str>, desktop: Option<bool>) -> RunConfig {
    RunConfig::new(home.map(|h| h.to_string()), desktop)
}

fn user_config() -> UserConfig {
    UserConfig {
        global: rc(Some("/home/u"), Some(true)),
        overrides: vec![
            (FlatpakHandle::Appid("org.x.A".to_string()), rc(None, Some(false))),
            (FlatpakHandle::Path("/b/org.x.B.flatpak".to_string()), rc(Some("/sand/b"), None)),
            (FlatpakHandle::Appid("org.x.C".to_string()), rc(Some("/sand/c"), Some(false))),
            (FlatpakHandle::Appid("org.x.A".to_string()), rc(Some("/never"), Some(true))),
        ],
        nogui: None,
        tmp_dir: None,
    }
}

#[test]
fn blend_takes_what_is_set_and_fills_up_the_rest() {
    assert_eq!(rc(Some("/a"), None).blend(rc(Some("/b"), Some(true))), rc(Some("/a"), Some(true)));
    assert_eq!(rc(None, Some(false)).blend(rc(Some("/b"), Some(true))), rc(Some("/b"), Some(false)));
    assert_eq!(rc(None, None).blend(rc(None, None)), rc(None, None));
    assert_eq!(rc(None, None).blend(rc(Some("/b"), Some(true))), rc(Some("/b"), Some(true)));
    assert_eq!(rc(Some("/a"), Some(false)).blend(rc(Some("/b"), Some(true))), rc(Some("/a"), Some(false)));
    assert_eq!(rc(Some("/a"), Some(false)).blend(rc(None, None)), rc(Some("/a"), Some(false)));
}

#[test]
fn blending_with_itself_changes_nothing() {
    for c in [rc(None, None), rc(Some("/a"), None), rc(None, Some(true)), rc(Some("/a"), Some(false))] {
        assert_eq!(c.blend(c.duplicate()), c);
    }
}

#[test]
fn the_settings_are_read_back() {
    let c = rc(Some("/a"), Some(false));
    assert_eq!(c.home_dir(), Some(&"/a".to_string()));
    assert_eq!(c.desktop_integration(), Some(false));
    assert_eq!(rc(None, None).home_dir(), None);
    assert_eq!(c.get_home_directory("/home/u".to_string()), "/a");
    assert_eq!(rc(None, None).get_home_directory("/home/u".to_string()), "/home/u");
}

#[test]
fn an_application_by_id_has_its_entry_over_the_global_settings() {
    let c = user_config();
    assert_eq!(c.get_config(FlatpakHandle::Appid("org.x.A".to_string())), rc(Some("/home/u"), Some(false)));
    assert_eq!(c.get_config(FlatpakHandle::Appid("org.x.C".to_string())), rc(Some("/sand/c"), Some(false)));
    assert_eq!(c.get_config(FlatpakHandle::Appid("org.x.Z".to_string())), rc(Some("/home/u"), Some(true)));
    // a path is no id
    assert_eq!(
        c.get_config(FlatpakHandle::Appid("/b/org.x.B.flatpak".to_string())),
        rc(Some("/home/u"), Some(true))
    );
}

#[test]
fn an_application_by_path_falls_back_to_its_file_stem() {
    let c = user_config();
    assert_eq!(
        c.get_config(FlatpakHandle::Path("/b/org.x.B.flatpak".to_string())),
        rc(Some("/sand/b"), Some(true))
    );
    // no entry under the path, but one under the id that the file is named after
    assert_eq!(
        c.get_config(FlatpakHandle::Path("/elsewhere/org.x.C.flatpak".to_string())),
        rc(Some("/sand/c"), Some(false))
    );
    assert_eq!(
        c.get_config(FlatpakHandle::Path("/elsewhere/org.x.Z.flatpak".to_string())),
        rc(Some("/home/u"), Some(true))
    );
    // a path without a file name
    assert_eq!(c.get_config(FlatpakHandle::Path("/".to_string())), rc(Some("/home/u"), Some(true)));
    assert_eq!(c.get_config(FlatpakHandle::Path("..".to_string())), rc(Some("/home/u"), Some(true)));
}

#[test]
fn the_stem_can_be_given() {
    let c = user_config();
    let handle = FlatpakHandle::Path("/x/whatever".to_string());
    assert_eq!(
        c.get_config_with_stem(&handle, Some("org.x.C".to_string())),
        rc(Some("/sand/c"), Some(false))
    );
    assert_eq!(c.get_config_with_stem(&handle, None), rc(Some("/home/u"), Some(true)));
    // the stem plays no part for an id
    assert_eq!(
        c.get_config_with_stem(&FlatpakHandle::Appid("org.x.Z".to_string()), Some("org.x.C".to_string())),
        rc(Some("/home/u"), Some(true))
    );
}

#[test]
fn the_default_configuration_ties_into_the_desktop() {
    let c = UserConfig::default();
    assert_eq!(c.global, rc(None, Some(true)));
    assert!(c.overrides.is_empty());
    assert_eq!(c.nogui, None);
    assert_eq!(c.tmp_dir, None);
    assert_eq!(c.get_config(FlatpakHandle::Appid("x".to_string())), rc(None, Some(true)));
}

#[test]
fn the_id_of_a_path_is_its_file_stem() {
    assert_eq!(FlatpakHandle::Appid("org.x.A".to_string()).to_appid(), "org.x.A");
    assert_eq!(FlatpakHandle::Path("/home/u/inkscape.flatpak".to_string()).to_appid(), "inkscape");
    assert_eq!(FlatpakHandle::Path("/home/u/org.x.A.flatpak".to_string()).to_appid(), "org.x.A");
    assert_eq!(FlatpakHandle::Path("plain".to_string()).to_appid(), "plain");
    assert_eq!(FlatpakHandle::Path("/d/.hidden".to_string()).to_appid(), ".hidden");
    assert_eq!(FlatpakHandle::Path("/home/u/inkscape.flatpak".to_string()).appid(), Some("inkscape".to_string()));
    assert_eq!(FlatpakHandle::Appid("org.x.A".to_string()).appid(), Some("org.x.A".to_string()));
    assert_eq!(FlatpakHandle::Path("/".to_string()).appid(), None);
    assert_eq!(FlatpakHandle::Path("".to_string()).appid(), None);
    assert_eq!(FlatpakHandle::Path("/a/..".to_string()).appid(), None);
}

#[test]
fn handles_are_the_same_by_kind_and_text() {
    let a = FlatpakHandle::Appid("x".to_string());
    assert!(a.same(&FlatpakHandle::Appid("x".to_string())));
    assert!(!a.same(&FlatpakHandle::Path("x".to_string())));
    assert!(!a.same(&FlatpakHandle::Appid("y".to_string())));
    assert!(FlatpakHandle::Path("/p".to_string()).same(&FlatpakHandle::Path("/p".to_string())));
}

#[test]
fn the_temporary_directory_follows_the_environment() {
    let mut c = UserConfig::default();
    assert_eq!(c.get_temporary_dir(None, None), "/run/user/1000/portapak/");
    assert_eq!(c.get_temporary_dir(None, Some("1001".to_string())), "/run/user/1001/portapak/");
    assert_eq!(c.get_temporary_dir(Some("/run/me".to_string()), Some("1001".to_string())), "/run/me/portapak/");
    assert_eq!(c.get_temporary_dir(Some("/run/me".to_string()), None), "/run/me/portapak/");
    c.tmp_dir = Some("/my/tmp".to_string());
    assert_eq!(c.get_temporary_dir(Some("/run/me".to_string()), None), "/my/tmp");
}

#[test]
fn storage_types_have_their_words() {
    assert_eq!(StorageType::Network.to_string(), "network");
    assert_eq!(StorageType::MMC.to_string(), "mmc");
    assert_eq!(StorageType::SDCard.to_string(), "sdcard");
    assert_eq!(StorageType::HardDisk.to_string(), "harddisk");
}

#[test]
fn a_named_repository_is_described_for_the_engine() {
    let r = FlatpakRepo::new("portable".to_string(), "/media/stick/repo".to_string());
    assert_eq!(
        r.to_string(),
        "[Installation \"portable\"\nPath=/media/stick/repo\nDisplayName=portable\nStorageType=harddisk"
    );
    assert_eq!(r.conf_dir("/etc/flatpak/installations.d"), "/etc/flatpak/installations.d/_portapak_portable.conf");
    assert_eq!(r.conf_dir("/etc/flatpak/installations.d/"), "/etc/flatpak/installations.d/_portapak_portable.conf");
}

#[test]
fn installing_and_removing_a_named_repository() {
    let r = FlatpakRepo::new("p".to_string(), "/repo".to_string());
    let plan = r.install_self("/inst".to_string());
    assert_eq!(plan.directories, vec!["/inst".to_string(), "/repo".to_string()]);
    assert_eq!(plan.conf_path, "/inst/_portapak_p.conf");
    assert_eq!(plan.conf_text, r.to_string());
    let plan = r.remove_self("/inst".to_string());
    assert_eq!(plan.conf_path, "/inst/_portapak_p.conf");
    assert_eq!(plan.directory, "/repo");
}

#[test]
fn a_bundle_that_is_missing_cannot_be_installed() {
    let r = FlatpakRepo::new("p".to_string(), "/repo".to_string());
    assert_eq!(
        r.install_flatpak("/b.flatpak".to_string(), false),
        Err(FlatrunError::FileNotFound("/b.flatpak".to_string()))
    );
    assert_eq!(r.install_flatpak("/b.flatpak".to_string(), true), Ok(String::new()));
}

#[test]
fn errors_carry_their_class_and_text() {
    let cases = [
        (FlatrunError::FileNotFound("/p".to_string()), ErrorClass::Input),
        (FlatrunError::Resolution("/p".to_string()), ErrorClass::Input),
        (FlatrunError::Repository("/p".to_string()), ErrorClass::Install),
        (FlatrunError::Transaction("/p".to_string()), ErrorClass::Install),
        (FlatrunError::Launch("/p".to_string()), ErrorClass::Launch),
        (FlatrunError::CommandUnsuccessful("/p".to_string()), ErrorClass::Usage),
    ];
    for (error, class) in cases {
        assert_eq!(error.class(), class);
        assert_eq!(error.text(), "/p");
    }
}

#[test]
fn the_window_takes_in_progress() {
    let mut w = ProgressInfo::new(("/t".to_string(), "/d".to_string(), AppState::LoadingFile(RunApp::Bundle("/b".to_string()))));
    assert_eq!(w.title(), "Flatrun");
    assert_eq!(w.subscription(), Some(RunApp::Bundle("/b".to_string())));
    let c = w.update(Message::Progress((
        "DEPS".to_string(),
        "install".to_string(),
        "runtime/x".to_string(),
        "Downloading".to_string(),
        40,
    )));
    assert_eq!(c, Command::Nothing);
    assert_eq!(w.repo, "DEPS");
    assert_eq!(w.action, "install");
    assert_eq!(w.app_ref, "runtime/x");
    assert_eq!(w.message, "Downloading");
    assert_eq!(w.progress, 40);
    assert_eq!(w.process, None);
    assert_eq!(w.temp_repo, "/t");
    assert_eq!(w.deps_repo, "/d");
}

#[test]
fn the_window_switches_to_running_and_closes_by_interrupt() {
    let mut w = ProgressInfo::new(("/t".to_string(), "/d".to_string(), AppState::LoadingFile(RunApp::Bundle("/b".to_string()))));
    // nothing to close yet
    assert_eq!(w.update(Message::Close), Command::Nothing);
    assert_eq!(w.update(Message::Finished(900)), Command::Nothing);
    assert_eq!(w.app_state, AppState::Done);
    assert_eq!(w.process, Some(900));
    assert_eq!(w.subscription(), None);
    assert_eq!(w.update(Message::Close), Command::Interrupt { pid: 900 });
    assert_eq!(w.after_interrupt(true), Command::CloseWindow { remove: "/t".to_string() });
    assert_eq!(w.after_interrupt(false), Command::Nothing);
}

#[test]
fn only_installs_are_told_to_a_listener() {
    assert_eq!(
        RunMessage::new_from(OperationKind::Install, "app/x".to_string(), 30, true),
        RunMessage::Install { r: "app/x".to_string(), progress: 30, dependency: true }
    );
    assert_eq!(
        RunMessage::new_from(OperationKind::InstallBundle, "app/x".to_string(), 100, false),
        RunMessage::Install { r: "app/x".to_string(), progress: 100, dependency: false }
    );
    assert_eq!(RunMessage::new_from(OperationKind::Other, "app/x".to_string(), 30, true), RunMessage::Unknown);
}

#[test]
fn a_file_is_run_from_the_temporary_directory() {
    let plan = run_no_install(
        Some("file:///home/u/a.flatpak".to_string()),
        Some("/home/u/rt.flatpak".to_string()),
        Some("ignored.when.a.file.is.given".to_string()),
        Some("https://example.org/r.flatpakrepo".to_string()),
        false,
        "/tmp",
    );
    assert_eq!(
        plan,
        RunPlan {
            clean: None,
            run: Some(RunRequest {
                install_under: "/tmp".to_string(),
                app: Flatpak::Bundle("/home/u/a.flatpak".to_string()),
                deps_at: Repo::System,
                runtime: Some(Flatpak::Bundle("/home/u/rt.flatpak".to_string())),
                remote_uri: Some("https://example.org/r.flatpakrepo".to_string()),
            }),
            show_help: false,
        }
    );
}

#[test]
fn an_id_is_downloaded_into_the_directory_for_downloads() {
    let plan = run_no_install(None, None, Some("org.x.A".to_string()), None, true, "/tmp");
    assert_eq!(
        plan,
        RunPlan {
            clean: Some("/tmp/flatrun".to_string()),
            run: Some(RunRequest {
                install_under: "/tmp/flatrun".to_string(),
                app: Flatpak::Download("org.x.A".to_string()),
                deps_at: Repo::System,
                runtime: None,
                remote_uri: None,
            }),
            show_help: false,
        }
    );
}

#[test]
fn without_a_target_there_is_no_run() {
    assert_eq!(
        run_no_install(None, None, None, None, false, "/tmp"),
        RunPlan { clean: None, run: None, show_help: true }
    );
    assert_eq!(
        run_no_install(None, Some("/rt".to_string()), None, None, true, "/tmp"),
        RunPlan { clean: Some("/tmp/flatrun".to_string()), run: None, show_help: false }
    );
}
