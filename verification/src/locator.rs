//! The runtime locator: the host's "find executable on the search path"
//! facility answers with the probe's status and captured output; the
//! resolved interpreter path is the first output line, trimmed. Absence
//! is an expected result, not a failure.

use vstd::prelude::*;
use vstd::string::{StrSliceExecFns, StringExecFns};
use crate::chars::{first_line, first_line_chars, trim_chars, trim_str};

verus! {

/// The interpreter path a probe resolves to: the first line of its
/// output, trimmed; nothing when the probe failed or the line is empty.
pub open spec fn locate_spec(probe_ok: bool, out: Seq<char>) -> Option<Seq<char>> {
    if !probe_ok || out.len() == 0 {
        None
    } else {
        let line = trim_chars(first_line_chars(out));
        if line.len() == 0 {
            None
        } else {
            Some(line)
        }
    }
}

/// Resolves the interpreter path out of a search probe's result.
pub fn locate_runtime(probe_ok: bool, stdout: &str) -> (r: Option<String>)
    ensures
        (r is Some) == (locate_spec(probe_ok, stdout@) is Some),
        r matches Some(p) ==> Some(p@) == locate_spec(probe_ok, stdout@),
{
    if !probe_ok || stdout.unicode_len() == 0 {
        return None;
    }
    let line = trim_str(first_line(stdout));
    if line.unicode_len() == 0 {
        None
    } else {
        Some(String::from_str(line))
    }
}

/// Whether the search probe found a runtime at all.
pub fn check_python(probe_ok: bool, stdout: &str) -> (r: bool)
    ensures
        r == (locate_spec(probe_ok, stdout@) is Some),
{
    locate_runtime(probe_ok, stdout).is_some()
}

} // verus!
