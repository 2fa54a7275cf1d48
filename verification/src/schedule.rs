//! The scheduler backend: installing, removing and querying the
//! periodic job, as a verified state machine.
//!
//! A `Scheduler` value models what the backend owns in the outside
//! world: the unit file (and, with systemd, its companion timer
//! file), and whether the job is registered with the scheduling
//! service.  The caller observes the real world to build the value,
//! performs each file write and each external command itself, and
//! hands the observed outcomes in as a script; the transitions taken
//! on them — what is written, in which order, which failures abort
//! and which are tolerated — are verified here.

use vstd::prelude::*;
use crate::errors::Error;
use crate::invoker::CmdOutcome;
use crate::platform::Platform;
use crate::text::{fmt_u64, spec_dec};
use crate::time::{spec_parse_next_run, parse_next_run_timestamp, Timestamp};

verus! {

/// An ephemeral scheduler query result, produced fresh on every
/// status query and never persisted.
#[derive(Clone, Copy, Debug, PartialEq, Eq, Structural)]
pub struct SchedulerStatus {
    /// Whether the scheduling service reports the job active.
    pub is_running: bool,
    /// The next fire time, on platforms that expose one.
    pub next_run: Option<Timestamp>,
}

/// The text of the launchd property list: run `<binary> notify` every
/// `interval` seconds, logging to fixed temp-directory paths.
pub open spec fn spec_launchd_unit(binary: Seq<char>, interval: int) -> Seq<char> {
    "<?xml version=\"1.0\" encoding=\"UTF-8\"?>\n<!DOCTYPE plist PUBLIC \"-//Apple//DTD PLIST 1.0//EN\" \"http://www.apple.com/DTDs/PropertyList-1.0.dtd\">\n<plist version=\"1.0\">\n<dict>\n    <key>Label</key>\n    <string>com.michalczmiel.szmer</string>\n    <key>ProgramArguments</key>\n    <array>\n        <string>"@
        + binary
        + "</string>\n        <string>notify</string>\n    </array>\n    <key>StartInterval</key>\n    <integer>"@
        + spec_dec(interval)
        + "</integer>\n    <key>RunAtLoad</key>\n    <false/>\n    <key>StandardOutPath</key>\n    <string>/tmp/szmer.log</string>\n    <key>StandardErrorPath</key>\n    <string>/tmp/szmer.err</string>\n</dict>\n</plist>\n"@
}

/// The text of the systemd service unit: a one-shot service whose
/// start command is `<binary> notify`.  The interval is not embedded
/// here — the companion timer unit alone carries timing.
pub open spec fn spec_systemd_service(binary: Seq<char>) -> Seq<char> {
    "[Unit]\nDescription=Szmer break reminder\nAfter=default.target\n\n[Service]\nType=oneshot\nExecStart="@
        + binary + " notify\n\n[Install]\nWantedBy=default.target\n"@
}

/// The text of the systemd timer unit: fires `interval` seconds after
/// boot and then every `interval` seconds.
pub open spec fn spec_systemd_timer(interval: int) -> Seq<char> {
    "[Unit]\nDescription=Szmer break reminder timer\nRequires=szmer.service\n\n[Timer]\nOnBootSec="@
        + spec_dec(interval) + "\nOnUnitActiveSec="@ + spec_dec(interval)
        + "\nPersistent=true\n\n[Install]\nWantedBy=timers.target\n"@
}

/// Renders the unit-description file for the platform: the property
/// list on macOS, the service unit on Linux, empty text elsewhere.
pub fn generate_service_file(platform: Platform, binary_path: &str, interval_seconds: u64) -> (r:
    String)
    ensures
        platform == Platform::MacOs ==> r@ == spec_launchd_unit(
            binary_path@,
            interval_seconds as int,
        ),
        platform == Platform::Linux ==> r@ == spec_systemd_service(binary_path@),
        platform == Platform::Unsupported ==> r@ == Seq::<char>::empty(),
{
    match platform {
        Platform::MacOs => {
            let mut r = String::from_str(
                "<?xml version=\"1.0\" encoding=\"UTF-8\"?>\n<!DOCTYPE plist PUBLIC \"-//Apple//DTD PLIST 1.0//EN\" \"http://www.apple.com/DTDs/PropertyList-1.0.dtd\">\n<plist version=\"1.0\">\n<dict>\n    <key>Label</key>\n    <string>com.michalczmiel.szmer</string>\n    <key>ProgramArguments</key>\n    <array>\n        <string>",
            );
            r.append(binary_path);
            r.append(
                "</string>\n        <string>notify</string>\n    </array>\n    <key>StartInterval</key>\n    <integer>",
            );
            r.append(fmt_u64(interval_seconds).as_str());
            r.append(
                "</integer>\n    <key>RunAtLoad</key>\n    <false/>\n    <key>StandardOutPath</key>\n    <string>/tmp/szmer.log</string>\n    <key>StandardErrorPath</key>\n    <string>/tmp/szmer.err</string>\n</dict>\n</plist>\n",
            );
            r
        },
        Platform::Linux => {
            let mut r = String::from_str(
                "[Unit]\nDescription=Szmer break reminder\nAfter=default.target\n\n[Service]\nType=oneshot\nExecStart=",
            );
            r.append(binary_path);
            r.append(" notify\n\n[Install]\nWantedBy=default.target\n");
            r
        },
        Platform::Unsupported => String::new(),
    }
}

/// Renders the companion timer-description file (systemd only).
pub fn generate_timer_file(interval_seconds: u64) -> (r: String)
    ensures
        r@ == spec_systemd_timer(interval_seconds as int),
{
    let mut r = String::from_str(
        "[Unit]\nDescription=Szmer break reminder timer\nRequires=szmer.service\n\n[Timer]\nOnBootSec=",
    );
    r.append(fmt_u64(interval_seconds).as_str());
    r.append("\nOnUnitActiveSec=");
    r.append(fmt_u64(interval_seconds).as_str());
    r.append("\nPersistent=true\n\n[Install]\nWantedBy=timers.target\n");
    r
}

/// The platform-specific unit-file location under the given home
/// directory.  The filename is a fixed constant, not configurable.
pub fn get_service_path(platform: Platform, home: &str) -> (r: Result<String, Error>)
    ensures
        platform == Platform::MacOs ==> (r matches Ok(p) && p@ == home@
            + "/Library/LaunchAgents/com.michalczmiel.szmer.plist"@),
        platform == Platform::Linux ==> (r matches Ok(p) && p@ == home@
            + "/.config/systemd/user/szmer.service"@),
        platform == Platform::Unsupported ==> r == Err::<String, Error>(Error::UnsupportedPlatform),
{
    match platform {
        Platform::MacOs => {
            let mut p = String::from_str(home);
            p.append("/Library/LaunchAgents/com.michalczmiel.szmer.plist");
            Ok(p)
        },
        Platform::Linux => {
            let mut p = String::from_str(home);
            p.append("/.config/systemd/user/szmer.service");
            Ok(p)
        },
        Platform::Unsupported => Err(Error::UnsupportedPlatform),
    }
}

/// The companion timer-file location under the given home directory
/// (systemd only).
pub fn get_timer_path(home: &str) -> (r: String)
    ensures
        r@ == home@ + "/.config/systemd/user/szmer.timer"@,
{
    let mut p = String::from_str(home);
    p.append("/.config/systemd/user/szmer.timer");
    p
}

/// The scripted outcomes of the external steps one `install` takes,
/// in the order they would be performed.
pub struct InstallScript {
    /// Whether writing the unit-description file succeeded.
    pub unit_write_ok: bool,
    /// The first scheduler-service call: the agent `load` on macOS,
    /// the service manager's `daemon-reload` on Linux.
    pub first_call: CmdOutcome,
    /// Whether writing the companion timer file succeeded (Linux
    /// only; ignored elsewhere).
    pub timer_write_ok: bool,
    /// The second scheduler-service call: the timer's
    /// `enable --now` (Linux only; ignored elsewhere).
    pub second_call: CmdOutcome,
}

/// The scripted outcomes of the external steps one `uninstall` takes.
pub struct UninstallScript {
    /// The deregistration call: the agent `unload` on macOS, the
    /// timer's `disable --now` on Linux.
    pub disable_call: CmdOutcome,
    /// Whether removing the companion timer file succeeded (Linux
    /// only; ignored elsewhere).
    pub timer_remove_ok: bool,
    /// Whether removing the unit-description file succeeded.
    pub unit_remove_ok: bool,
}

/// The scheduler backend's model of what it owns in the outside
/// world.
pub struct Scheduler {
    /// The scheduling service driven by this value.
    pub platform: Platform,
    /// The canonical absolute path of the calling executable, if it
    /// could be resolved.
    pub binary_path: Option<String>,
    /// Where the unit-description file lives.
    pub unit_path: String,
    /// Where the companion timer file lives (Linux only).
    pub timer_path: String,
    /// The unit-description file's content, when the file exists.
    /// Its existence is the sole source of truth for "is installed".
    pub unit_file: Option<String>,
    /// The companion timer file's content, when that file exists.
    pub timer_file: Option<String>,
    /// Whether the job is registered with the scheduling service.
    pub registered: bool,
}

impl Scheduler {
    /// The states the backend can actually be in: an unsupported
    /// platform owns nothing, and only Linux has a timer file.
    pub open spec fn wf(self) -> bool {
        &&& (self.platform == Platform::Unsupported ==> self.unit_file is None
            && self.timer_file is None && !self.registered)
        &&& (self.platform == Platform::MacOs ==> self.timer_file is None)
    }

    /// Whether the job is installed: exactly the unit file's
    /// existence, nothing else is consulted.
    pub open spec fn spec_installed(self) -> bool {
        self.unit_file is Some
    }

    /// The unit-file text `install` writes, given this state's
    /// resolved binary path.
    pub open spec fn spec_unit_content(self, interval: int) -> Seq<char> {
        match self.binary_path {
            Some(b) => match self.platform {
                Platform::MacOs => spec_launchd_unit(b@, interval),
                Platform::Linux => spec_systemd_service(b@),
                Platform::Unsupported => Seq::<char>::empty(),
            },
            None => Seq::<char>::empty(),
        }
    }

    /// A backend over a fresh environment: nothing installed,
    /// nothing registered.
    pub fn new(platform: Platform, home: &str, binary_path: Option<String>) -> (r: Scheduler)
        ensures
            r.wf(),
            r.platform == platform,
            r.binary_path == binary_path,
            !r.spec_installed(),
            r.timer_file is None,
            !r.registered,
            platform == Platform::MacOs ==> r.unit_path@ == home@
                + "/Library/LaunchAgents/com.michalczmiel.szmer.plist"@,
            platform == Platform::Linux ==> r.unit_path@ == home@
                + "/.config/systemd/user/szmer.service"@,
            r.timer_path@ == home@ + "/.config/systemd/user/szmer.timer"@,
    {
        let unit_path = match get_service_path(platform, home) {
            Ok(p) => p,
            Err(_) => String::new(),
        };
        let timer_path = get_timer_path(home);
        Scheduler {
            platform,
            binary_path,
            unit_path,
            timer_path,
            unit_file: None,
            timer_file: None,
            registered: false,
        }
    }

    /// Whether the job is installed.  A pure existence check on the
    /// unit-file path; it never fails.
    pub fn is_installed(&self) -> (r: bool)
        ensures
            r == self.spec_installed(),
    {
        self.unit_file.is_some()
    }

    /// Installs the job to fire every `interval_seconds` seconds.
    ///
    /// Refused outright on an unsupported platform, when a unit file
    /// already exists (`AlreadyInstalled`, naming it), and when the
    /// executable's path could not be resolved.  Otherwise the unit
    /// file is written and the job registered, on Linux with the
    /// companion timer file and a `daemon-reload` in between.  A
    /// failure after the unit file was written leaves it in place —
    /// `uninstall` can clean up — and surfaces to the caller.
    ///
    /// After a successful install the job is installed and
    /// registered.
    pub fn install(&mut self, interval_seconds: u64, fx: &InstallScript) -> (r: Result<(), Error>)
        requires
            old(self).wf(),
        ensures
            final(self).wf(),
            final(self).platform == old(self).platform,
            final(self).binary_path == old(self).binary_path,
            final(self).unit_path == old(self).unit_path,
            final(self).timer_path == old(self).timer_path,
            r is Ok ==> final(self).spec_installed() && final(self).registered,
            old(self).platform == Platform::Unsupported ==> r == Err::<(), Error>(
                Error::UnsupportedPlatform,
            ) && *final(self) == *old(self),
            old(self).platform != Platform::Unsupported && old(self).spec_installed() ==> (
            r matches Err(Error::AlreadyInstalled(p)) && p@ == old(self).unit_path@) && *final(self)
                == *old(self),
            old(self).platform != Platform::Unsupported && !old(self).spec_installed() && old(self).binary_path is None ==> r == Err::<(), Error>(Error::BinaryPathUnresolvable) && *final(self) == *old(self),
            ({
                let pre = old(self).platform != Platform::Unsupported && !old(self).spec_installed() && old(self).binary_path is Some;
                &&& (pre && !fx.unit_write_ok ==> (r matches Err(Error::IoFailure(p)) && p@ == old(self).unit_path@) && *final(self) == *old(self))
                &&& (pre && fx.unit_write_ok ==> (final(self).unit_file matches Some(c) && c@
                    == old(self).spec_unit_content(interval_seconds as int)))
            }),
            ({
                let pre = old(self).platform == Platform::MacOs && !old(self).spec_installed()
                    && old(self).binary_path is Some && fx.unit_write_ok;
                &&& (pre && !fx.first_call.success ==> (r matches Err(Error::ServiceCallFailure {
                    label,
                    stderr,
                }) && label@ == "Failed to load launchd agent"@ && stderr == fx.first_call.stderr)
                    && final(self).registered == old(self).registered && final(self).timer_file
                    == old(self).timer_file)
                &&& (pre && fx.first_call.success ==> r == Ok::<(), Error>(()) && final(self).registered && final(self).timer_file == old(self).timer_file)
            }),
            ({
                let pre = old(self).platform == Platform::Linux && !old(self).spec_installed()
                    && old(self).binary_path is Some && fx.unit_write_ok;
                &&& (pre && !fx.first_call.success ==> (r matches Err(Error::ServiceCallFailure {
                    label,
                    stderr,
                }) && label@ == "Failed to reload systemd"@ && stderr == fx.first_call.stderr)
                    && final(self).registered == old(self).registered && final(self).timer_file
                    == old(self).timer_file)
                &&& (pre && fx.first_call.success && !fx.timer_write_ok ==> (r matches Err(
                    Error::IoFailure(p),
                ) && p@ == old(self).timer_path@) && final(self).registered == old(self).registered
                    && final(self).timer_file == old(self).timer_file)
                &&& (pre && fx.first_call.success && fx.timer_write_ok ==> (final(self).timer_file matches Some(t) && t@ == spec_systemd_timer(interval_seconds as int)))
                &&& (pre && fx.first_call.success && fx.timer_write_ok && !fx.second_call.success
                    ==> (r matches Err(Error::ServiceCallFailure { label, stderr }) && label@
                    == "Failed to enable systemd timer"@ && stderr == fx.second_call.stderr)
                    && final(self).registered == old(self).registered)
                &&& (pre && fx.first_call.success && fx.timer_write_ok && fx.second_call.success
                    ==> r == Ok::<(), Error>(()) && final(self).registered)
            }),
    {
        match self.platform {
            Platform::Unsupported => Err(Error::UnsupportedPlatform),
            Platform::MacOs => {
                if self.unit_file.is_some() {
                    return Err(Error::AlreadyInstalled(self.unit_path.clone()));
                }
                let binary = match &self.binary_path {
                    Some(b) => b.clone(),
                    None => {
                        return Err(Error::BinaryPathUnresolvable);
                    },
                };
                let content = generate_service_file(
                    Platform::MacOs,
                    binary.as_str(),
                    interval_seconds,
                );
                if !fx.unit_write_ok {
                    return Err(Error::IoFailure(self.unit_path.clone()));
                }
                self.unit_file = Some(content);
                if !fx.first_call.success {
                    return Err(
                        Error::ServiceCallFailure {
                            label: String::from_str("Failed to load launchd agent"),
                            stderr: fx.first_call.stderr.clone(),
                        },
                    );
                }
                self.registered = true;
                Ok(())
            },
            Platform::Linux => {
                if self.unit_file.is_some() {
                    return Err(Error::AlreadyInstalled(self.unit_path.clone()));
                }
                let binary = match &self.binary_path {
                    Some(b) => b.clone(),
                    None => {
                        return Err(Error::BinaryPathUnresolvable);
                    },
                };
                let content = generate_service_file(
                    Platform::Linux,
                    binary.as_str(),
                    interval_seconds,
                );
                if !fx.unit_write_ok {
                    return Err(Error::IoFailure(self.unit_path.clone()));
                }
                self.unit_file = Some(content);
                if !fx.first_call.success {
                    return Err(
                        Error::ServiceCallFailure {
                            label: String::from_str("Failed to reload systemd"),
                            stderr: fx.first_call.stderr.clone(),
                        },
                    );
                }
                if !fx.timer_write_ok {
                    return Err(Error::IoFailure(self.timer_path.clone()));
                }
                self.timer_file = Some(generate_timer_file(interval_seconds));
                if !fx.second_call.success {
                    return Err(
                        Error::ServiceCallFailure {
                            label: String::from_str("Failed to enable systemd timer"),
                            stderr: fx.second_call.stderr.clone(),
                        },
                    );
                }
                self.registered = true;
                Ok(())
            },
        }
    }

    /// Removes the job.
    ///
    /// When nothing is installed this is a successful no-op,
    /// reported as `Ok(false)`.  Otherwise deregistration is
    /// attempted first; its failure is tolerated (the caller may
    /// warn) and file cleanup proceeds regardless, because a stale
    /// unit file is worse than a stale registration.  Removing the
    /// unit file itself is the one step whose failure is an error.
    /// `Ok(true)` reports that the installed job was removed.
    pub fn uninstall(&mut self, fx: &UninstallScript) -> (r: Result<bool, Error>)
        requires
            old(self).wf(),
        ensures
            final(self).wf(),
            final(self).platform == old(self).platform,
            final(self).binary_path == old(self).binary_path,
            final(self).unit_path == old(self).unit_path,
            final(self).timer_path == old(self).timer_path,
            r is Ok ==> !final(self).spec_installed(),
            old(self).platform == Platform::Unsupported ==> r == Err::<bool, Error>(
                Error::UnsupportedPlatform,
            ) && *final(self) == *old(self),
            old(self).platform != Platform::Unsupported && !old(self).spec_installed() ==> r
                == Ok::<bool, Error>(false) && *final(self) == *old(self),
            ({
                let pre = old(self).platform != Platform::Unsupported && old(self).spec_installed();
                &&& (pre ==> final(self).registered == (old(self).registered
                    && !fx.disable_call.success))
                &&& (pre && !fx.unit_remove_ok ==> (r matches Err(Error::IoFailure(p)) && p@ == old(self).unit_path@) && final(self).unit_file == old(self).unit_file)
                &&& (pre && fx.unit_remove_ok ==> r == Ok::<bool, Error>(true) && final(self).unit_file is None)
            }),
            old(self).platform == Platform::Linux && old(self).spec_installed() ==> final(self).timer_file == (if fx.disable_call.success && fx.timer_remove_ok {
                Option::<String>::None
            } else {
                old(self).timer_file
            }),
            old(self).platform == Platform::MacOs ==> final(self).timer_file == old(self).timer_file,
    {
        match self.platform {
            Platform::Unsupported => Err(Error::UnsupportedPlatform),
            Platform::MacOs => {
                if self.unit_file.is_none() {
                    return Ok(false);
                }
                if fx.disable_call.success {
                    self.registered = false;
                }
                if !fx.unit_remove_ok {
                    return Err(Error::IoFailure(self.unit_path.clone()));
                }
                self.unit_file = None;
                Ok(true)
            },
            Platform::Linux => {
                if self.unit_file.is_none() {
                    return Ok(false);
                }
                if fx.disable_call.success {
                    self.registered = false;
                    if fx.timer_remove_ok {
                        self.timer_file = None;
                    }
                }
                if !fx.unit_remove_ok {
                    return Err(Error::IoFailure(self.unit_path.clone()));
                }
                self.unit_file = None;
                Ok(true)
            },
        }
    }

    /// Queries the scheduling service for the job's state.
    ///
    /// Fails with `NotInstalled` when the unit file is absent.
    /// Otherwise `is_running` is exactly the query call's success.
    /// On Linux, and only while running, the next fire time is read
    /// from the service manager's next-elapse report — a best-effort
    /// enrichment: a failed or unparsable report yields no next-run
    /// time, never an error.  macOS does not expose a next-run time
    /// for interval-based jobs.
    ///
    /// `query` is the run-state call's outcome (`list` on macOS,
    /// `is-active` on Linux); `show` is the next-elapse report's
    /// (Linux only; ignored elsewhere).
    pub fn get_scheduler_status(&self, query: &CmdOutcome, show: &CmdOutcome) -> (r: Result<
        SchedulerStatus,
        Error,
    >)
        requires
            self.wf(),
        ensures
            !self.spec_installed() ==> r == Err::<SchedulerStatus, Error>(Error::NotInstalled),
            self.spec_installed() && self.platform == Platform::MacOs ==> r == Ok::<
                SchedulerStatus,
                Error,
            >(SchedulerStatus { is_running: query.success, next_run: None }),
            self.spec_installed() && self.platform == Platform::Linux ==> r == Ok::<
                SchedulerStatus,
                Error,
            >(
                SchedulerStatus {
                    is_running: query.success,
                    next_run: if query.success && show.success {
                        spec_parse_next_run(show.stdout@)
                    } else {
                        None
                    },
                },
            ),
    {
        if self.unit_file.is_none() {
            return Err(Error::NotInstalled);
        }
        match self.platform {
            Platform::Unsupported => Err(Error::UnsupportedPlatform),
            Platform::MacOs => Ok(SchedulerStatus { is_running: query.success, next_run: None }),
            Platform::Linux => {
                let next_run: Option<Timestamp> = if query.success && show.success {
                    parse_next_run_timestamp(show.stdout.as_str())
                } else {
                    None
                };
                Ok(SchedulerStatus { is_running: query.success, next_run })
            },
        }
    }
}

} // verus!
