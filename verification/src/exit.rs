//! The exit codes by which the process tells the operator why it stopped.

use vstd::prelude::*;

verus! {

/// Exit code for a required script that is missing.
pub open spec fn missing_script_code() -> i32 {
    65
}

/// Exit code for a script prefix that more than one file answers to.
pub open spec fn ambiguous_script_code() -> i32 {
    78
}

/// Exit code for a script that could not be started, or that failed without
/// an exit code of its own.
pub open spec fn script_failure_code() -> i32 {
    70
}

/// Exit code for a configuration that holds no job.
pub open spec fn no_jobs_code() -> i32 {
    66
}

/// Exit code for a directory that could not be listed.
pub open spec fn unreadable_directory_code() -> i32 {
    74
}

/// Exit code for a termination that the operator forced.
pub open spec fn forced_termination_code() -> i32 {
    75
}

/// Reads `exitcode::DATAERR`, which the crate defines as 65.
#[verifier::external_body]
pub(crate) fn missing_script() -> (code: i32)
    ensures
        code == missing_script_code(),
{
    exitcode::DATAERR
}

/// Reads `exitcode::CONFIG`, which the crate defines as 78.
#[verifier::external_body]
pub(crate) fn ambiguous_script() -> (code: i32)
    ensures
        code == ambiguous_script_code(),
{
    exitcode::CONFIG
}

/// Reads `exitcode::SOFTWARE`, which the crate defines as 70.
#[verifier::external_body]
pub(crate) fn script_failure() -> (code: i32)
    ensures
        code == script_failure_code(),
{
    exitcode::SOFTWARE
}

/// Reads `exitcode::NOINPUT`, which the crate defines as 66.
#[verifier::external_body]
pub(crate) fn no_jobs() -> (code: i32)
    ensures
        code == no_jobs_code(),
{
    exitcode::NOINPUT
}

/// Reads `exitcode::IOERR`, which the crate defines as 74.
#[verifier::external_body]
pub(crate) fn unreadable_directory() -> (code: i32)
    ensures
        code == unreadable_directory_code(),
{
    exitcode::IOERR
}

/// Reads `exitcode::TEMPFAIL`, which the crate defines as 75.
#[verifier::external_body]
pub(crate) fn forced_termination() -> (code: i32)
    ensures
        code == forced_termination_code(),
{
    exitcode::TEMPFAIL
}

} // verus!
