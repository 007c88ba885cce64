pub mod error_handling;
pub mod expector;
pub mod file_coverage_module_resolver;
pub mod instrumentation;
pub mod logging_container;
pub mod pattern;
pub mod test_container;
pub mod test_coverage_container;
pub mod test_runner;
pub mod text;

use vstd::prelude::*;

verus! {

/// Decides the process exit code for a finished run: one when a suite
/// failed, zero otherwise. Watch mode never exits on failures, so there the
/// code is always zero.
pub fn compute_exit_code(is_watch_mode: bool, any_suite_failed: bool) -> (code: i32)
    ensures
        code == if !is_watch_mode && any_suite_failed { 1int } else { 0int },
{
    if !is_watch_mode && any_suite_failed {
        1
    } else {
        0
    }
}

} // verus!
