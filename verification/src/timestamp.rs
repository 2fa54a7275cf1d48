//! The last-notification log: a one-line-per-notification,
//! append-only file of Unix timestamps.
//!
//! Appending to the file and reading it back is the caller's
//! business; what the record read back means is decided here.

use vstd::prelude::*;
use crate::errors::Error;
use crate::text::{parse_i64, spec_parse_i64, spec_trim, trim_str};
use crate::time::Timestamp;

verus! {

/// The characters after the last line break of `t` (which is assumed
/// to carry no trailing line break itself).
pub open spec fn spec_suffix_line(t: Seq<char>) -> Seq<char>
    decreases t.len(),
{
    if t.len() == 0 {
        t
    } else if t.last() == '\n' {
        Seq::<char>::empty()
    } else {
        spec_suffix_line(t.drop_last()).push(t.last())
    }
}

/// The last line of `s`, as line iteration yields it: `None` for
/// empty text; otherwise the text after the last line break, with a
/// final line terminator (`\n` or `\r\n`) not counting as one.
pub open spec fn spec_last_line(s: Seq<char>) -> Option<Seq<char>> {
    if s.len() == 0 {
        None
    } else {
        let t = if s.last() == '\n' {
            if s.len() >= 2 && s[s.len() - 2] == '\r' {
                s.take(s.len() - 2)
            } else {
                s.drop_last()
            }
        } else {
            s
        };
        Some(spec_suffix_line(t))
    }
}

proof fn lemma_suffix_line_subrange(t: Seq<char>, start: int)
    requires
        0 <= start <= t.len(),
        forall|k: int| start <= k < t.len() ==> t[k] != '\n',
        start > 0 ==> t[start - 1] == '\n',
    ensures
        spec_suffix_line(t) == t.subrange(start, t.len() as int),
    decreases t.len() - start,
{
    if start == t.len() {
        if start == 0 {
            assert(t.subrange(0, 0) =~= t);
        } else {
            assert(t.last() == '\n');
            assert(t.subrange(start, t.len() as int) =~= Seq::<char>::empty());
        }
    } else {
        assert(t.last() != '\n');
        lemma_suffix_line_subrange(t.drop_last(), start);
        assert(t.drop_last().subrange(start, t.len() - 1) =~= t.subrange(start, t.len() - 1));
        assert(t.subrange(start, t.len() - 1).push(t.last()) =~= t.subrange(
            start,
            t.len() as int,
        ));
    }
}

/// Reads the last notification time out of the log's content: the
/// final line, trimmed, as a Unix timestamp in whole seconds.  An
/// empty log holds no time; a final line that is not a number is an
/// error.
pub fn get_last_notification(content: &str) -> (r: Result<Option<Timestamp>, Error>)
    ensures
        match spec_last_line(content@) {
            None => r == Ok::<Option<Timestamp>, Error>(None),
            Some(line) => match spec_parse_i64(spec_trim(line)) {
                Some(ts) => r == Ok::<Option<Timestamp>, Error>(
                    Some(Timestamp { secs: ts as i64, nanos: 0 }),
                ),
                None => r == Err::<Option<Timestamp>, Error>(Error::InvalidTimestamp),
            },
        },
{
    let len = content.unicode_len();
    if len == 0 {
        return Ok(None);
    }
    let mut end: usize = len;
    if content.get_char(len - 1) == '\n' {
        if len >= 2 && content.get_char(len - 2) == '\r' {
            end = len - 2;
        } else {
            end = len - 1;
        }
    }
    let ghost t = content@.take(end as int);
    proof {
        if content@.last() == '\n' {
            if content@.len() >= 2 && content@[content@.len() - 2] == '\r' {
                assert(t == content@.take(content@.len() - 2));
            } else {
                assert(t =~= content@.drop_last());
            }
        } else {
            assert(t =~= content@);
        }
    }
    let mut start: usize = end;
    while start > 0 && content.get_char(start - 1) != '\n'
        invariant
            end <= len,
            len == content@.len(),
            start <= end,
            t == content@.take(end as int),
            forall|k: int| start <= k < end ==> t[k] != '\n',
        decreases start,
    {
        start = start - 1;
    }
    proof {
        lemma_suffix_line_subrange(t, start as int);
        assert(t.subrange(start as int, end as int) =~= content@.subrange(
            start as int,
            end as int,
        ));
    }
    let line = content.substring_char(start, end);
    let trimmed = trim_str(line);
    match parse_i64(trimmed.as_str()) {
        Some(ts) => Ok(Some(Timestamp { secs: ts, nanos: 0 })),
        None => Err(Error::InvalidTimestamp),
    }
}

} // verus!
