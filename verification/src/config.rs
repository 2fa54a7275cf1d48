//! The persisted configuration record, and the pause/resume
//! decisions taken on it.
//!
//! Loading and saving the record is the caller's business; the shape
//! of the record and how operations change it are specified here.

use vstd::prelude::*;
use crate::errors::Error;

verus! {

/// Settings for the time-tracking integration.
#[derive(Clone, Debug, PartialEq, Eq, Structural)]
pub struct TimewarriorConfig {
    /// Whether reminders are withheld unless a tracking session is active.
    pub enabled: bool,
}

impl Default for TimewarriorConfig {
    /// Integration starts out disabled.
    fn default() -> (r: Self)
        ensures
            !r.enabled,
    {
        TimewarriorConfig { enabled: false }
    }
}

/// The main application configuration.
#[derive(Clone, Debug, PartialEq, Eq)]
pub struct Config {
    /// The notification sound name; `None` means the system default.
    pub notification_sound: Option<String>,
    /// Whether reminders are currently paused.
    pub paused: bool,
    /// The break interval, in seconds.
    pub interval_seconds: u64,
    /// The time-tracking integration settings.
    pub timewarrior: TimewarriorConfig,
}

/// The break interval used when none was configured: one hour.
pub fn default_interval() -> (r: u64)
    ensures
        r == 3600,
{
    3600
}

impl Default for Config {
    /// No sound, not paused, hourly reminders, integration off.
    fn default() -> (r: Self)
        ensures
            r.notification_sound is None,
            !r.paused,
            r.interval_seconds == 3600,
            !r.timewarrior.enabled,
    {
        Config {
            notification_sound: None,
            paused: false,
            interval_seconds: 3600,
            timewarrior: TimewarriorConfig { enabled: false },
        }
    }
}

/// Pauses reminders.  Requires the scheduler to be installed; when it
/// is, flips the persisted pause flag and nothing else.  Returns
/// whether the flag changed, so the caller knows to save the record
/// (`false`: reminders were already stopped).
pub fn stop(config: &mut Config, installed: bool) -> (r: Result<bool, Error>)
    ensures
        !installed ==> r == Err::<bool, Error>(Error::NotInstalled) && *final(config) == *old(
            config,
        ),
        installed && old(config).paused ==> r == Ok::<bool, Error>(false) && *final(config) == *old(
            config,
        ),
        installed && !old(config).paused ==> r == Ok::<bool, Error>(true) && *final(config) == (
        Config { paused: true, ..*old(config) }),
{
    if !installed {
        return Err(Error::NotInstalled);
    }
    if config.paused {
        return Ok(false);
    }
    config.paused = true;
    Ok(true)
}

/// Resumes reminders.  Requires the scheduler to be installed; when
/// it is, clears the persisted pause flag and nothing else.  Returns
/// whether the flag changed (`false`: reminders were already
/// running).
pub fn resume(config: &mut Config, installed: bool) -> (r: Result<bool, Error>)
    ensures
        !installed ==> r == Err::<bool, Error>(Error::NotInstalled) && *final(config) == *old(
            config,
        ),
        installed && !old(config).paused ==> r == Ok::<bool, Error>(false) && *final(config)
            == *old(config),
        installed && old(config).paused ==> r == Ok::<bool, Error>(true) && *final(config) == (
        Config { paused: false, ..*old(config) }),
{
    if !installed {
        return Err(Error::NotInstalled);
    }
    if !config.paused {
        return Ok(false);
    }
    config.paused = false;
    Ok(true)
}

/// What a boolean-valued configuration word means, compared without
/// regard to ASCII case: the usual yes/no spellings, or `None` for
/// anything else.
pub open spec fn spec_parse_bool(s: Seq<char>) -> Option<bool> {
    if ascii_eq_fold(s, "true"@) || ascii_eq_fold(s, "1"@) || ascii_eq_fold(s, "yes"@)
        || ascii_eq_fold(s, "y"@) {
        Some(true)
    } else if ascii_eq_fold(s, "false"@) || ascii_eq_fold(s, "0"@) || ascii_eq_fold(s, "no"@)
        || ascii_eq_fold(s, "n"@) {
        Some(false)
    } else {
        None
    }
}

/// The code point of `c` after ASCII lower-casing: upper-case
/// letters mapped down, everything else unchanged.
pub open spec fn ascii_fold(c: char) -> int {
    if 65 <= c as int && c as int <= 90 {
        c as int + 32
    } else {
        c as int
    }
}

/// Character-wise equality up to ASCII case.
pub open spec fn ascii_eq_fold(a: Seq<char>, b: Seq<char>) -> bool {
    a.len() == b.len() && (forall|k: int| 0 <= k < a.len() ==> ascii_fold(a[k]) == ascii_fold(b[k]))
}

/// ASCII-case-insensitive comparison of two strings.
fn eq_fold(a: &str, b: &str) -> (r: bool)
    ensures
        r == ascii_eq_fold(a@, b@),
{
    let alen = a.unicode_len();
    let blen = b.unicode_len();
    if alen != blen {
        return false;
    }
    let mut i: usize = 0;
    while i < alen
        invariant
            alen == a@.len(),
            blen == b@.len(),
            alen == blen,
            i <= alen,
            forall|k: int| 0 <= k < i ==> ascii_fold(a@[k]) == ascii_fold(b@[k]),
        decreases alen - i,
    {
        let ca = a.get_char(i) as u32;
        let cb = b.get_char(i) as u32;
        let fa = if 65 <= ca && ca <= 90 {
            ca + 32
        } else {
            ca
        };
        let fb = if 65 <= cb && cb <= 90 {
            cb + 32
        } else {
            cb
        };
        if fa != fb {
            return false;
        }
        i = i + 1;
    }
    true
}

/// Reads a boolean configuration value: accepts the usual yes/no
/// spellings in any ASCII case, and rejects everything else with
/// `None`.
pub fn parse_bool(value: &str) -> (r: Option<bool>)
    ensures
        r == spec_parse_bool(value@),
{
    if eq_fold(value, "true") || eq_fold(value, "1") || eq_fold(value, "yes") || eq_fold(
        value,
        "y",
    ) {
        Some(true)
    } else if eq_fold(value, "false") || eq_fold(value, "0") || eq_fold(value, "no") || eq_fold(
        value,
        "n",
    ) {
        Some(false)
    } else {
        None
    }
}

} // verus!
