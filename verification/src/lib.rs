//! A personal break-reminder library.
//!
//! The verified core of a utility that registers itself with the host's
//! scheduling service (launchd on macOS, systemd user units on Linux),
//! periodically fires a desktop notification, and optionally suppresses
//! reminders while no time-tracking session is active.
//!
//! Everything that touches the outside world (files, child processes, the
//! clock) is observed by the caller and handed in as plain values; the
//! decisions taken on those observations are verified here.

pub mod config;
pub mod errors;
pub mod invoker;
pub mod platform;
pub mod schedule;
pub mod sound;
pub mod text;
pub mod time;
pub mod timestamp;
pub mod timewarrior;
