use szmer::config::{Config, TimewarriorConfig};
use szmer::errors::Error;
use szmer::invoker::CmdOutcome;
use szmer::timewarrior::{
    get_binary_path, get_status, is_installed, is_tracking_active, notify_action,
    should_send_notification, NotifyAction,
};

fn tool_found() -> CmdOutcome {
    CmdOutcome::ok(String::from("/usr/bin/timew\n"))
}

fn tool_missing() -> CmdOutcome {
    CmdOutcome::failed(String::new())
}

fn session_active() -> CmdOutcome {
    CmdOutcome::ok(String::from("1\n"))
}

fn session_inactive() -> CmdOutcome {
    CmdOutcome::ok(String::from("0\n"))
}

fn query_error() -> CmdOutcome {
    CmdOutcome::failed(String::from("timew broke"))
}

#[test]
fn disabled_integration_always_sends() {
    let config = TimewarriorConfig { enabled: false };
    assert!(should_send_notification(&config, &tool_missing(), &session_active()));
    assert!(should_send_notification(&config, &tool_found(), &session_active()));
    assert!(should_send_notification(&config, &tool_found(), &session_inactive()));
    assert!(should_send_notification(&config, &tool_found(), &query_error()));
}

#[test]
fn enabled_integration_suppresses_only_on_a_reported_idle_session() {
    let config = TimewarriorConfig { enabled: true };
    assert!(should_send_notification(&config, &tool_missing(), &session_active()));
    assert!(should_send_notification(&config, &tool_found(), &session_active()));
    assert!(!should_send_notification(&config, &tool_found(), &session_inactive()));
    assert!(should_send_notification(&config, &tool_found(), &query_error()));
}

#[test]
fn tracking_query_is_trimmed_and_compared_to_one() {
    assert_eq!(is_tracking_active(&session_active()), Ok(true));
    assert_eq!(is_tracking_active(&session_inactive()), Ok(false));
    assert_eq!(is_tracking_active(&CmdOutcome::ok(String::from("  1  "))), Ok(true));
    assert_eq!(is_tracking_active(&CmdOutcome::ok(String::from("11"))), Ok(false));
    match is_tracking_active(&query_error()) {
        Err(Error::ServiceCallFailure { label, stderr }) => {
            assert_eq!(label, "Failed to query timewarrior status");
            assert_eq!(stderr, "timew broke");
        },
        other => panic!("expected ServiceCallFailure, got {:?}", other),
    }
}

#[test]
fn binary_path_is_the_trimmed_lookup_output() {
    assert_eq!(get_binary_path(&tool_found()), Some(String::from("/usr/bin/timew")));
    assert_eq!(get_binary_path(&tool_missing()), None);
    assert!(is_installed(&tool_found()));
    assert!(!is_installed(&tool_missing()));
}

#[test]
fn status_aggregates_all_probes() {
    let status = get_status(&tool_found(), &session_active());
    assert!(status.is_installed);
    assert_eq!(status.binary_path, Some(String::from("/usr/bin/timew")));
    assert_eq!(status.is_tracking, Some(true));

    let status = get_status(&tool_found(), &session_inactive());
    assert_eq!(status.is_tracking, Some(false));

    let status = get_status(&tool_found(), &query_error());
    assert!(status.is_installed);
    assert_eq!(status.is_tracking, None);

    let status = get_status(&tool_missing(), &session_active());
    assert!(!status.is_installed);
    assert_eq!(status.binary_path, None);
    assert_eq!(status.is_tracking, None);
}

fn config_with(paused: bool, enabled: bool) -> Config {
    Config {
        notification_sound: Some(String::from("Glass")),
        paused,
        interval_seconds: 1500,
        timewarrior: TimewarriorConfig { enabled },
    }
}

#[test]
fn notify_does_nothing_while_paused() {
    let action = notify_action(&config_with(true, true), &tool_found(), &session_active());
    assert_eq!(action, NotifyAction::Skip);
}

#[test]
fn notify_is_suppressed_by_an_idle_session() {
    let action = notify_action(&config_with(false, true), &tool_found(), &session_inactive());
    assert_eq!(action, NotifyAction::Suppress);
}

#[test]
fn notify_sends_with_the_configured_sound() {
    let action = notify_action(&config_with(false, true), &tool_found(), &session_active());
    assert_eq!(action, NotifyAction::Send(Some(String::from("Glass"))));
    let action = notify_action(&config_with(false, false), &tool_missing(), &query_error());
    assert_eq!(action, NotifyAction::Send(Some(String::from("Glass"))));
}
