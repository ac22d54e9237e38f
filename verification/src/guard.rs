//! The single-instance guard: a marker file holds the process id of the
//! instance that may be running. Acquisition fails only when that id
//! parses and names a live process; an absent, corrupt or stale marker is
//! ignored and overwritten by the caller.

use vstd::prelude::*;
use vstd::string::StrSliceExecFns;
use crate::chars::{parse_u32, parse_u32_chars, trim_chars, trim_str};

verus! {

/// The process id a marker text records: its trimmed content read as a
/// decimal number, with an optional leading plus sign.
pub open spec fn marker_pid_spec(content: Seq<char>) -> Option<u32> {
    let t = trim_chars(content);
    if t.len() > 0 && t[0] == '+' {
        parse_u32_chars(t.drop_first())
    } else {
        parse_u32_chars(t)
    }
}

/// Parses the process id recorded in a marker file's content; `None` for
/// anything that is not a decimal number.
pub fn parse_marker_pid(content: &str) -> (r: Option<u32>)
    ensures
        r == marker_pid_spec(content@),
{
    let t = trim_str(content);
    let n = t.unicode_len();
    if n > 0 && t.get_char(0) == '+' {
        proof {
            assert(t@.subrange(1, n as int) =~= t@.drop_first());
        }
        parse_u32(t.substring_char(1, n))
    } else {
        parse_u32(t)
    }
}

/// Decides acquisition: it fails exactly when the marker named a process
/// id and that process is alive. An absent, corrupt or stale marker
/// acquires, and the caller then overwrites the marker with its own id.
pub fn acquire_decision(recorded_pid: Option<u32>, recorded_alive: bool) -> (r: bool)
    ensures
        r == !(recorded_pid is Some && recorded_alive),
{
    !(recorded_pid.is_some() && recorded_alive)
}

} // verus!
