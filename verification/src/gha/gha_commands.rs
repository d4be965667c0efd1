//! The GitHub Actions state the helper keeps between steps.
use vstd::prelude::*;

use crate::text::{concat2, concat3};

verus! {

/// The state key the server's pid is saved under.
pub const PID_STATE_KEY: &'static str = "decay-pid";

/// The environment variable naming the file that saves step state.
pub const GITHUB_STATE_VARIABLE: &'static str = "GITHUB_STATE";

/// The file the started server's standard output goes to.
pub const OUT_LOG: &'static str = "out.log";

/// The file the started server's standard error goes to.
pub const ERR_LOG: &'static str = "err.log";

/// The environment variable that tells the server its port.
pub const PORT_VARIABLE: &'static str = "PORT";

/// The line that saves `value` under `key` in the state file: `key=value`.
pub fn state_line(key: &str, value: &str) -> (r: String)
    ensures
        r@ == key@ + seq!['='] + value@,
{
    let r = concat3(key, "=", value);
    proof {
        reveal_strlit("=");
    }
    assert(r@ =~= key@ + seq!['='] + value@);
    r
}

/// The environment variable that a saved state comes back in: `STATE_{key}`.
pub fn state_variable(key: &str) -> (r: String)
    ensures
        r@ == "STATE_"@ + key@,
{
    concat2("STATE_", key)
}

/// The helper's exit status after stopping a process: 0 when `kill` succeeded.
pub fn stop_exit_code(kill_succeeded: bool) -> (r: i32)
    ensures
        r == (if kill_succeeded {
            0i32
        } else {
            1i32
        }),
{
    if kill_succeeded {
        0
    } else {
        1
    }
}

} // verus!
