//! Durations as text, and the next-fire timestamp that the service
//! manager reports.

use vstd::prelude::*;
use crate::text::{
    fmt_u64, parse_i64, spec_dec, spec_parse_i64, spec_trim, str_eq, trim_str,
};

verus! {

/// A point in time as seconds and nanoseconds since the Unix epoch.
///
/// Rendering it in the local time zone is the caller's business; the
/// instant itself is plain data.
#[derive(Clone, Copy, Debug, PartialEq, Eq, Structural)]
pub struct Timestamp {
    /// Whole seconds since the epoch.
    pub secs: i64,
    /// The sub-second part, in nanoseconds.
    pub nanos: u32,
}

/// The singular or plural form of a time-unit word, for `count`
/// occurrences.  Only the two words the formatter uses are known;
/// anything else pluralizes to a bare `s`.
pub open spec fn spec_pluralize(word: Seq<char>, count: int) -> Seq<char> {
    if count == 1 {
        if word == " minute"@ {
            " minute"@
        } else if word == " hour"@ {
            " hour"@
        } else {
            ""@
        }
    } else {
        if word == " minute"@ {
            " minutes"@
        } else if word == " hour"@ {
            " hours"@
        } else {
            "s"@
        }
    }
}

/// Pluralizes a time-unit word according to `count`.
pub fn pluralize_unit(word: &str, count: u64) -> (r: &'static str)
    ensures
        r@ == spec_pluralize(word@, count as int),
{
    let is_minute = str_eq(word, " minute");
    let is_hour = str_eq(word, " hour");
    if count == 1 {
        if is_minute {
            " minute"
        } else if is_hour {
            " hour"
        } else {
            ""
        }
    } else {
        if is_minute {
            " minutes"
        } else if is_hour {
            " hours"
        } else {
            "s"
        }
    }
}

/// The text `format_interval` produces: hours and minutes, each
/// mentioned only when meaningful, with `0 minutes` for a zero
/// interval.
pub open spec fn spec_format_interval(seconds: int) -> Seq<char> {
    let h = seconds / 3600;
    let m = (seconds % 3600) / 60;
    if h == 0 {
        spec_dec(m) + spec_pluralize(" minute"@, m)
    } else if m == 0 {
        spec_dec(h) + spec_pluralize(" hour"@, h)
    } else {
        spec_dec(h) + spec_pluralize(" hour"@, h) + " "@ + spec_dec(m) + spec_pluralize(
            " minute"@,
            m,
        )
    }
}

/// Formats an interval given in seconds as a human-readable string,
/// e.g. `1 hour 30 minutes`.  Seconds below a whole minute are
/// dropped.
pub fn format_interval(seconds: u64) -> (r: String)
    ensures
        r@ == spec_format_interval(seconds as int),
{
    let hours = seconds / 3600;
    let minutes = (seconds % 3600) / 60;
    if hours == 0 {
        let mut r = fmt_u64(minutes);
        r.append(pluralize_unit(" minute", minutes));
        r
    } else if minutes == 0 {
        let mut r = fmt_u64(hours);
        r.append(pluralize_unit(" hour", hours));
        r
    } else {
        let mut r = fmt_u64(hours);
        r.append(pluralize_unit(" hour", hours));
        r.append(" ");
        r.append(fmt_u64(minutes).as_str());
        r.append(pluralize_unit(" minute", minutes));
        r
    }
}

/// The text `format_time_until` produces for a point `seconds_until`
/// seconds away: `in <h/m>` for future points at least a minute off,
/// `very soon` for anything nearer or already past.
pub open spec fn spec_format_time_until(seconds_until: int) -> Seq<char> {
    let s = if seconds_until < 0 {
        0
    } else {
        seconds_until
    };
    let h = s / 3600;
    let m = (s / 60) % 60;
    if h == 0 && m > 0 {
        "in "@ + spec_dec(m) + spec_pluralize(" minute"@, m)
    } else if h > 0 {
        "in "@ + spec_dec(h) + spec_pluralize(" hour"@, h) + " "@ + spec_dec(m) + spec_pluralize(
            " minute"@,
            m,
        )
    } else {
        "very soon"@
    }
}

/// Formats how far away a future point in time is, given the signed
/// number of seconds from now until it.
pub fn format_time_until(seconds_until: i64) -> (r: String)
    ensures
        r@ == spec_format_time_until(seconds_until as int),
{
    let s: u64 = if seconds_until < 0 {
        0
    } else {
        seconds_until as u64
    };
    let hours = s / 3600;
    let minutes = (s / 60) % 60;
    if hours == 0 && minutes > 0 {
        let mut r = String::from_str("in ");
        r.append(fmt_u64(minutes).as_str());
        r.append(pluralize_unit(" minute", minutes));
        r
    } else if hours > 0 {
        let mut r = String::from_str("in ");
        r.append(fmt_u64(hours).as_str());
        r.append(pluralize_unit(" hour", hours));
        r.append(" ");
        r.append(fmt_u64(minutes).as_str());
        r.append(pluralize_unit(" minute", minutes));
        r
    } else {
        String::from_str("very soon")
    }
}

/// The property name the service manager prefixes its next-elapse
/// report with.
pub open spec fn next_elapse_prefix() -> Seq<char> {
    "NextElapseUSecRealtime="@
}

/// What parsing the service manager's next-elapse report yields: the
/// value after the property prefix, trimmed, read as a microsecond
/// Unix timestamp.  Anything malformed is `None`, never an error.
pub open spec fn spec_parse_next_run(out: Seq<char>) -> Option<Timestamp> {
    let p = next_elapse_prefix();
    if out.len() >= p.len() && out.subrange(0, p.len() as int) == p {
        let rest = out.subrange(p.len() as int, out.len() as int);
        match spec_parse_i64(spec_trim(rest)) {
            Some(usec) => if usec >= 0 {
                Some(
                    Timestamp {
                        secs: (usec / 1000000) as i64,
                        nanos: ((usec % 1000000) * 1000) as u32,
                    },
                )
            } else {
                None
            },
            None => None,
        }
    } else {
        None
    }
}

/// Parses the `NextElapseUSecRealtime=<microseconds>` line that the
/// service manager prints for a timer, yielding the next fire time.
/// A missing prefix, a malformed number or a pre-epoch value all
/// yield `None`: the next-run time is a best-effort enrichment.
pub fn parse_next_run_timestamp(output: &str) -> (r: Option<Timestamp>)
    ensures
        r == spec_parse_next_run(output@),
{
    proof {
        reveal_strlit("NextElapseUSecRealtime=");
    }
    let prefix: &str = "NextElapseUSecRealtime=";
    let plen = prefix.unicode_len();
    let olen = output.unicode_len();
    if olen < plen {
        return None;
    }
    let mut i: usize = 0;
    while i < plen
        invariant
            plen == prefix@.len(),
            olen == output@.len(),
            plen <= olen,
            i <= plen,
            prefix@ == next_elapse_prefix(),
            forall|k: int| 0 <= k < i ==> output@[k] == prefix@[k],
        decreases plen - i,
    {
        if output.get_char(i) != prefix.get_char(i) {
            proof {
                assert(output@.subrange(0, plen as int)[i as int] != prefix@[i as int]);
            }
            return None;
        }
        i = i + 1;
    }
    proof {
        assert(output@.subrange(0, plen as int) =~= prefix@);
    }
    let rest = output.substring_char(plen, olen);
    let trimmed = trim_str(rest);
    match parse_i64(trimmed.as_str()) {
        Some(usec) => {
            if usec >= 0 {
                let u = usec as u64;
                Some(
                    Timestamp {
                        secs: (u / 1000000) as i64,
                        nanos: ((u % 1000000) * 1000) as u32,
                    },
                )
            } else {
                None
            }
        },
        None => None,
    }
}

} // verus!
