//! The tracking-status filter: decides, from the observed state of the
//! external time-tracking tool, whether a reminder may be shown.
//!
//! The two probes the decisions rest on are external commands — the
//! path lookup for the tool's binary, and the tool's own
//! active-session query — and their captured outcomes are handed in
//! as plain values.  The policy fails open on purpose: integration
//! off, tool missing, or a failed query must never silently suppress
//! a reminder; only a successful query reporting no active session
//! does.

use vstd::prelude::*;
use crate::config::{Config, TimewarriorConfig};
use crate::errors::Error;
use crate::invoker::CmdOutcome;
use crate::text::{spec_trim, str_eq, trim_str};

verus! {

/// Status information about the time-tracking integration, for
/// display only.
#[derive(Clone, Debug, PartialEq, Eq)]
pub struct Status {
    /// Whether the tracking tool was found in the search path.
    pub is_installed: bool,
    /// The resolved path of the tool's binary, if found.
    pub binary_path: Option<String>,
    /// Whether a tracking session is currently active; `None` when
    /// that cannot be determined (tool missing, or the query failed).
    pub is_tracking: Option<bool>,
}

/// What the tool's active-session query reports: its output, trimmed,
/// is the literal `1` exactly when a session is active.
pub open spec fn spec_active(stdout: Seq<char>) -> bool {
    spec_trim(stdout) == "1"@
}

/// Whether a reminder may be shown, given the enable flag and the two
/// observed probe outcomes.  The policy is an ordered decision table:
/// integration off, tool missing and query failure each allow the
/// reminder; only a successful query reporting no session suppresses
/// it.
pub open spec fn spec_should_send(enabled: bool, which: CmdOutcome, query: CmdOutcome) -> bool {
    !enabled || !which.success || !query.success || spec_active(query.stdout@)
}

/// Whether the tracking tool is present, given the outcome of looking
/// its binary up in the search path.
pub fn is_installed(which: &CmdOutcome) -> (r: bool)
    ensures
        r == which.success,
{
    which.success
}

/// The resolved path of the tracking tool's binary: the path lookup's
/// output, trimmed, if the lookup succeeded.
pub fn get_binary_path(which: &CmdOutcome) -> (r: Option<String>)
    ensures
        which.success ==> (r matches Some(p) && p@ == spec_trim(which.stdout@)),
        !which.success ==> r is None,
{
    if which.success {
        Some(trim_str(which.stdout.as_str()))
    } else {
        None
    }
}

/// Whether a tracking session is active, given the outcome of the
/// tool's active-session query: the trimmed output compared to the
/// literal `1`.  A failed query is an error, for the caller to
/// interpret.
pub fn is_tracking_active(query: &CmdOutcome) -> (r: Result<bool, Error>)
    ensures
        query.success ==> (r matches Ok(b) && b == spec_active(query.stdout@)),
        !query.success ==> (r matches Err(e) && e matches Error::ServiceCallFailure {
            label,
            stderr,
        } && label@ == "Failed to query timewarrior status"@ && stderr == query.stderr),
{
    if !query.success {
        return Err(
            Error::ServiceCallFailure {
                label: String::from_str("Failed to query timewarrior status"),
                stderr: query.stderr.clone(),
            },
        );
    }
    let trimmed = trim_str(query.stdout.as_str());
    Ok(str_eq(trimmed.as_str(), "1"))
}

/// Decides whether a reminder should be sent.
///
/// The ordered, fail-open decision table:
/// 1. integration disabled — send;
/// 2. tool not found in the search path — send;
/// 3. active-session query failed — send;
/// 4. query succeeded — send exactly when it reports an active
///    session.
pub fn should_send_notification(
    config: &TimewarriorConfig,
    which: &CmdOutcome,
    query: &CmdOutcome,
) -> (r: bool)
    ensures
        r == spec_should_send(config.enabled, *which, *query),
        !config.enabled ==> r,
        !which.success ==> r,
        !query.success ==> r,
        config.enabled && which.success && query.success ==> r == spec_active(query.stdout@),
{
    if !config.enabled {
        return true;
    }
    if !is_installed(which) {
        return true;
    }
    match is_tracking_active(query) {
        Ok(active) => active,
        Err(_) => true,
    }
}

/// Aggregates the probe outcomes into display-only status
/// information: never fails, and does not influence the decision above.
pub fn get_status(which: &CmdOutcome, query: &CmdOutcome) -> (r: Status)
    ensures
        r.is_installed == which.success,
        which.success ==> (r.binary_path matches Some(p) && p@ == spec_trim(which.stdout@)),
        !which.success ==> r.binary_path is None,
        which.success && query.success ==> r.is_tracking == Some(spec_active(query.stdout@)),
        !(which.success && query.success) ==> r.is_tracking is None,
{
    let installed = is_installed(which);
    let binary_path = get_binary_path(which);
    let is_tracking = if installed {
        match is_tracking_active(query) {
            Ok(active) => Some(active),
            Err(_) => None,
        }
    } else {
        None
    };
    Status { is_installed: installed, binary_path, is_tracking }
}

/// What the notify-time entry point should do, decided from the
/// loaded configuration and the suppression policy's probe outcomes.
#[derive(Clone, Debug, PartialEq, Eq)]
pub enum NotifyAction {
    /// Reminders are paused: do nothing, successfully.
    Skip,
    /// The suppression policy held the reminder back: report it skipped.
    Suppress,
    /// Show the reminder, with this notification sound.
    Send(Option<String>),
}

/// Decides what a notify invocation does: nothing while paused, a
/// suppressed reminder when the tracking policy says so, and otherwise a
/// notification with the configured sound.
pub fn notify_action(config: &Config, which: &CmdOutcome, query: &CmdOutcome) -> (r: NotifyAction)
    ensures
        config.paused ==> r == NotifyAction::Skip,
        !config.paused && !spec_should_send(config.timewarrior.enabled, *which, *query) ==> r
            == NotifyAction::Suppress,
        !config.paused && spec_should_send(config.timewarrior.enabled, *which, *query) ==> r
            == NotifyAction::Send(config.notification_sound),
{
    if config.paused {
        return NotifyAction::Skip;
    }
    if !should_send_notification(&config.timewarrior, which, query) {
        return NotifyAction::Suppress;
    }
    NotifyAction::Send(config.notification_sound.clone())
}

} // verus!
