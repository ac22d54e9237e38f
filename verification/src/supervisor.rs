//! The backend supervisor's planning half: how the worker invocation is
//! built, how the project root is resolved, and how the worker's captured
//! diagnostic stream is condensed into a tail. Spawning, killing and
//! reaping the child are carried out by the caller against these plans.

use vstd::prelude::*;
use vstd::string::StringExecFns;
use crate::chars::{trim_chars, trim_str};
use crate::text::{strip_cr, strip_cr_bytes, suffix, suffix_bytes, trim_ascii, trim_bytes};

verus! {

/// How many bytes of the worker's diagnostic stream are kept on failure.
pub const DIAGNOSTIC_TAIL_LIMIT: usize = 600;

/// Everything needed to spawn the worker: the interpreter, the fixed
/// module entry arguments, the working directory, and the environment
/// variable naming the data root. The caller additionally closes the
/// child's input, discards its output, captures its error stream, and
/// suppresses a visible console where the platform would show one.
pub struct WorkerInvocation {
    pub program: String,
    pub args: Vec<String>,
    pub working_dir: String,
    pub env_key: String,
    pub env_value: String,
}

/// Builds the worker invocation: the located interpreter (or the bare
/// command name, letting the host resolve it), the fixed module entry,
/// the project root as working directory, and the data root passed down
/// in the environment.
pub fn build_invocation(python_exe: Option<String>, root: String) -> (inv: WorkerInvocation)
    ensures
        inv.program@ == (match python_exe {
            Some(p) => p@,
            None => "python"@,
        }),
        inv.args@.len() == 2,
        inv.args@[0]@ == "-m"@,
        inv.args@[1]@ == "script_controller.run"@,
        inv.working_dir@ == root@,
        inv.env_key@ == "SCRIPT_CONTROLLER_ROOT"@,
        inv.env_value@ == root@ + "/script_controller"@,
{
    let program = match python_exe {
        Some(p) => p,
        None => String::from_str("python"),
    };
    let mut args: Vec<String> = Vec::new();
    args.push(String::from_str("-m"));
    args.push(String::from_str("script_controller.run"));
    let env_value = root.clone().concat("/script_controller");
    WorkerInvocation {
        program,
        args,
        working_dir: root,
        env_key: String::from_str("SCRIPT_CONTROLLER_ROOT"),
        env_value,
    }
}

/// The project root: the first of the environment override and the
/// sibling file whose trimmed text is non-empty, else the platform
/// default handed in by the caller.
pub open spec fn root_choice(
    env_override: Option<Seq<char>>,
    sibling: Option<Seq<char>>,
    fallback: Seq<char>,
) -> Seq<char> {
    let e = match env_override {
        Some(e) => trim_chars(e),
        None => Seq::empty(),
    };
    if e.len() > 0 {
        e
    } else {
        let s = match sibling {
            Some(s) => trim_chars(s),
            None => Seq::empty(),
        };
        if s.len() > 0 {
            s
        } else {
            fallback
        }
    }
}

/// Resolves the project root, first hit wins: the explicit environment
/// override, a sibling text file naming the root, else the platform
/// default.
pub fn resolve_project_root(
    env_override: Option<&str>,
    sibling_file: Option<&str>,
    fallback: String,
) -> (r: String)
    ensures
        r@ == root_choice(
            match env_override {
                Some(e) => Some(e@),
                None => None,
            },
            match sibling_file {
                Some(s) => Some(s@),
                None => None,
            },
            fallback@,
        ),
{
    if let Some(e) = env_override {
        let t = trim_str(e);
        if t.unicode_len() > 0 {
            return String::from_str(t);
        }
    }
    if let Some(s) = sibling_file {
        let t = trim_str(s);
        if t.unicode_len() > 0 {
            return String::from_str(t);
        }
    }
    fallback
}

/// The tail kept of a captured diagnostic stream: the trimmed text, cut
/// to its last `DIAGNOSTIC_TAIL_LIMIT` bytes behind an ellipsis when
/// longer, with carriage returns removed.
pub open spec fn diagnostic_tail_spec(s: Seq<u8>) -> Seq<u8> {
    let t = trim_bytes(s);
    if t.len() > DIAGNOSTIC_TAIL_LIMIT {
        seq![46u8, 46u8, 46u8] + strip_cr_bytes(suffix_bytes(t, DIAGNOSTIC_TAIL_LIMIT as int))
    } else {
        strip_cr_bytes(t)
    }
}

/// Condenses the worker's captured error stream into the tail that a
/// startup failure report carries.
pub fn diagnostic_tail(stderr: &[u8]) -> (r: Vec<u8>)
    ensures
        r@ == diagnostic_tail_spec(stderr@),
{
    let t = trim_ascii(stderr);
    if t.len() > DIAGNOSTIC_TAIL_LIMIT {
        let mut out: Vec<u8> = Vec::new();
        out.push(46);
        out.push(46);
        out.push(46);
        let mut rest = strip_cr(suffix(t, DIAGNOSTIC_TAIL_LIMIT));
        out.append(&mut rest);
        proof {
            assert(out@ =~= diagnostic_tail_spec(stderr@));
        }
        out
    } else {
        strip_cr(t)
    }
}

} // verus!
