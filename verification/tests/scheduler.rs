use szmer::errors::Error;
use szmer::invoker::{check_outcome, CmdOutcome};
use szmer::platform::Platform;
use szmer::schedule::{
    generate_service_file, generate_timer_file, get_service_path, get_timer_path, InstallScript,
    Scheduler, UninstallScript,
};

fn all_ok_install() -> InstallScript {
    InstallScript {
        unit_write_ok: true,
        first_call: CmdOutcome::ok(String::new()),
        timer_write_ok: true,
        second_call: CmdOutcome::ok(String::new()),
    }
}

fn all_ok_uninstall() -> UninstallScript {
    UninstallScript {
        disable_call: CmdOutcome::ok(String::new()),
        timer_remove_ok: true,
        unit_remove_ok: true,
    }
}

#[test]
fn installed_after_install_on_both_platforms() {
    for platform in [Platform::MacOs, Platform::Linux] {
        let mut s = Scheduler::new(platform, "/home/user", Some(String::from("/usr/bin/szmer")));
        assert!(!s.is_installed());
        assert!(s.install(1500, &all_ok_install()).is_ok());
        assert!(s.is_installed());
        assert!(s.registered);
        assert_eq!(s.uninstall(&all_ok_uninstall()), Ok(true));
        assert!(!s.is_installed());
        assert!(!s.registered);
    }
}

#[test]
fn second_install_fails_and_mutates_nothing() {
    for platform in [Platform::MacOs, Platform::Linux] {
        let mut s = Scheduler::new(platform, "/home/user", Some(String::from("/usr/bin/szmer")));
        assert!(s.install(1500, &all_ok_install()).is_ok());
        let unit_before = s.unit_file.clone();
        let timer_before = s.timer_file.clone();
        let result = s.install(900, &all_ok_install());
        match result {
            Err(Error::AlreadyInstalled(path)) => assert!(path.contains("/home/user")),
            other => panic!("expected AlreadyInstalled, got {:?}", other),
        }
        assert_eq!(s.unit_file, unit_before);
        assert_eq!(s.timer_file, timer_before);
    }
}

#[test]
fn uninstall_when_nothing_installed_is_a_successful_noop() {
    for platform in [Platform::MacOs, Platform::Linux] {
        let mut s = Scheduler::new(platform, "/home/user", Some(String::from("/usr/bin/szmer")));
        // Ok(false) tells the caller to print an informational
        // message instead of an error.
        assert_eq!(s.uninstall(&all_ok_uninstall()), Ok(false));
        assert!(!s.is_installed());
    }
}

#[test]
fn end_to_end_linux() {
    let mut s = Scheduler::new(Platform::Linux, "/home/user", Some(String::from("/usr/bin/szmer")));
    assert!(s.install(1500, &all_ok_install()).is_ok());

    let unit = s.unit_file.clone().unwrap();
    assert!(unit.contains("ExecStart=/usr/bin/szmer notify"));
    assert!(unit.contains("Type=oneshot"));
    // On this variant the interval lives in the timer file alone.
    assert!(!unit.contains("1500"));
    let timer = s.timer_file.clone().unwrap();
    assert!(timer.contains("OnBootSec=1500"));
    assert!(timer.contains("OnUnitActiveSec=1500"));
    assert!(timer.contains("Persistent=true"));

    let status = s
        .get_scheduler_status(
            &CmdOutcome::ok(String::new()),
            &CmdOutcome::ok(String::from("NextElapseUSecRealtime=1700000000000000\n")),
        )
        .unwrap();
    assert!(status.is_running);
    assert_eq!(status.next_run.unwrap().secs, 1_700_000_000);

    assert_eq!(s.uninstall(&all_ok_uninstall()), Ok(true));
    assert!(!s.is_installed());
    assert!(s.unit_file.is_none());
    assert!(s.timer_file.is_none());
}

#[test]
fn end_to_end_macos() {
    let mut s = Scheduler::new(Platform::MacOs, "/home/user", Some(String::from("/usr/bin/szmer")));
    assert!(s.install(1500, &all_ok_install()).is_ok());

    let unit = s.unit_file.clone().unwrap();
    assert!(unit.contains("<integer>1500</integer>"));
    assert!(unit.contains("<string>com.michalczmiel.szmer</string>"));
    assert!(unit.contains("<string>/usr/bin/szmer</string>"));
    assert!(unit.contains("<string>notify</string>"));
    assert!(s.timer_file.is_none());

    let status = s
        .get_scheduler_status(&CmdOutcome::ok(String::new()), &CmdOutcome::ok(String::new()))
        .unwrap();
    assert!(status.is_running);
    // launchd does not expose a next-run time for interval jobs.
    assert!(status.next_run.is_none());

    assert_eq!(s.uninstall(&all_ok_uninstall()), Ok(true));
    assert!(!s.is_installed());
}

#[test]
fn unsupported_platform_refuses_everything() {
    let mut s = Scheduler::new(Platform::Unsupported, "/home/user", None);
    assert_eq!(s.install(1500, &all_ok_install()), Err(Error::UnsupportedPlatform));
    assert_eq!(s.uninstall(&all_ok_uninstall()), Err(Error::UnsupportedPlatform));
    assert!(!s.is_installed());
    assert!(matches!(get_service_path(Platform::Unsupported, "/h"), Err(Error::UnsupportedPlatform)));
}

#[test]
fn install_without_resolved_binary_fails() {
    let mut s = Scheduler::new(Platform::Linux, "/home/user", None);
    assert_eq!(s.install(1500, &all_ok_install()), Err(Error::BinaryPathUnresolvable));
    assert!(!s.is_installed());
}

#[test]
fn failed_unit_write_reports_io_failure() {
    let mut s = Scheduler::new(Platform::Linux, "/home/user", Some(String::from("/usr/bin/szmer")));
    let fx = InstallScript { unit_write_ok: false, ..all_ok_install() };
    match s.install(1500, &fx) {
        Err(Error::IoFailure(path)) => {
            assert_eq!(path, "/home/user/.config/systemd/user/szmer.service")
        },
        other => panic!("expected IoFailure, got {:?}", other),
    }
    assert!(!s.is_installed());
}

#[test]
fn failed_registration_leaves_unit_file_in_place() {
    let mut s = Scheduler::new(Platform::Linux, "/home/user", Some(String::from("/usr/bin/szmer")));
    let fx = InstallScript {
        first_call: CmdOutcome::failed(String::from("bus error")),
        ..all_ok_install()
    };
    match s.install(1500, &fx) {
        Err(Error::ServiceCallFailure { label, stderr }) => {
            assert_eq!(label, "Failed to reload systemd");
            assert_eq!(stderr, "bus error");
        },
        other => panic!("expected ServiceCallFailure, got {:?}", other),
    }
    // The written unit file stays for uninstall to clean up.
    assert!(s.is_installed());
    assert!(!s.registered);
}

#[test]
fn failed_load_on_macos_reports_its_label() {
    let mut s = Scheduler::new(Platform::MacOs, "/home/user", Some(String::from("/usr/bin/szmer")));
    let fx = InstallScript {
        first_call: CmdOutcome::failed(String::from("no bootstrap")),
        ..all_ok_install()
    };
    match s.install(1500, &fx) {
        Err(Error::ServiceCallFailure { label, .. }) => {
            assert_eq!(label, "Failed to load launchd agent")
        },
        other => panic!("expected ServiceCallFailure, got {:?}", other),
    }
    assert!(s.is_installed());
}

#[test]
fn failed_deregistration_is_tolerated_by_uninstall() {
    let mut s = Scheduler::new(Platform::Linux, "/home/user", Some(String::from("/usr/bin/szmer")));
    assert!(s.install(1500, &all_ok_install()).is_ok());
    let ux = UninstallScript {
        disable_call: CmdOutcome::failed(String::from("unit not loaded")),
        timer_remove_ok: true,
        unit_remove_ok: true,
    };
    // The disable failure is downgraded; file removal proceeds.
    assert_eq!(s.uninstall(&ux), Ok(true));
    assert!(!s.is_installed());
}

#[test]
fn failed_unit_removal_is_an_error() {
    let mut s = Scheduler::new(Platform::Linux, "/home/user", Some(String::from("/usr/bin/szmer")));
    assert!(s.install(1500, &all_ok_install()).is_ok());
    let ux = UninstallScript {
        disable_call: CmdOutcome::ok(String::new()),
        timer_remove_ok: true,
        unit_remove_ok: false,
    };
    assert!(matches!(s.uninstall(&ux), Err(Error::IoFailure(_))));
    assert!(s.is_installed());
}

#[test]
fn status_requires_installation() {
    let s = Scheduler::new(Platform::Linux, "/home/user", Some(String::from("/usr/bin/szmer")));
    let r = s.get_scheduler_status(&CmdOutcome::ok(String::new()), &CmdOutcome::ok(String::new()));
    assert_eq!(r, Err(Error::NotInstalled));
}

#[test]
fn status_with_inactive_timer_has_no_next_run() {
    let mut s = Scheduler::new(Platform::Linux, "/home/user", Some(String::from("/usr/bin/szmer")));
    assert!(s.install(1500, &all_ok_install()).is_ok());
    let status = s
        .get_scheduler_status(
            &CmdOutcome::failed(String::new()),
            &CmdOutcome::ok(String::from("NextElapseUSecRealtime=1700000000000000\n")),
        )
        .unwrap();
    assert!(!status.is_running);
    assert!(status.next_run.is_none());
}

#[test]
fn status_with_unparsable_report_has_no_next_run() {
    let mut s = Scheduler::new(Platform::Linux, "/home/user", Some(String::from("/usr/bin/szmer")));
    assert!(s.install(1500, &all_ok_install()).is_ok());
    let status = s
        .get_scheduler_status(
            &CmdOutcome::ok(String::new()),
            &CmdOutcome::ok(String::from("NextElapseUSecRealtime=invalid\n")),
        )
        .unwrap();
    assert!(status.is_running);
    assert!(status.next_run.is_none());
}

#[test]
fn service_paths_are_fixed_per_platform() {
    assert_eq!(
        get_service_path(Platform::MacOs, "/home/user").unwrap(),
        "/home/user/Library/LaunchAgents/com.michalczmiel.szmer.plist"
    );
    assert_eq!(
        get_service_path(Platform::Linux, "/home/user").unwrap(),
        "/home/user/.config/systemd/user/szmer.service"
    );
    assert_eq!(get_timer_path("/home/user"), "/home/user/.config/systemd/user/szmer.timer");
}

#[test]
fn generated_files_render_the_interval() {
    let unit = generate_service_file(Platform::MacOs, "/bin/szmer", 1200);
    assert!(unit.contains("<integer>1200</integer>"));
    assert!(unit.contains("/tmp/szmer.log"));
    let service = generate_service_file(Platform::Linux, "/bin/szmer", 1200);
    assert!(service.contains("ExecStart=/bin/szmer notify"));
    let timer = generate_timer_file(1200);
    assert!(timer.contains("OnBootSec=1200"));
    assert!(timer.contains("WantedBy=timers.target"));
    assert_eq!(generate_service_file(Platform::Unsupported, "/bin/szmer", 1200), "");
}

#[test]
fn check_outcome_never_swallows_a_nonzero_exit() {
    assert_eq!(check_outcome(&CmdOutcome::ok(String::from("ignored")), "label"), Ok(()));
    match check_outcome(&CmdOutcome::failed(String::from("boom")), "Failed to load launchd agent") {
        Err(Error::ServiceCallFailure { label, stderr }) => {
            assert_eq!(label, "Failed to load launchd agent");
            assert_eq!(stderr, "boom");
        },
        other => panic!("expected ServiceCallFailure, got {:?}", other),
    }
}
