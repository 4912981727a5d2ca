//! Choice of the log line layout. Building the actual logger — files,
//! appenders, thresholds — is the application's work; the engine only
//! decides which layout a verbosity level gets.

use vstd::prelude::*;

verus! {

/// The logging verbosity levels, as the engine reads them.
#[derive(Debug, Clone, Copy, PartialEq, Eq, Structural)]
pub enum LogLevel {
    Off,
    Error,
    Warn,
    Info,
    Debug,
    Trace,
}

/// The log line layout for a verbosity level: nothing when logging is
/// off, a layout with source locations for the two most verbose levels,
/// and a simple layout otherwise.
pub fn get_log_format(level: LogLevel) -> (f: &'static str)
    ensures
        level is Off ==> f@ == ""@,
        level is Trace || level is Debug ==> f@ == "{h({l})} {d(%Y-%m-%d %H:%M:%S:%s)} [{f}:{L}] {M}:    {m}{n}\n"@,
        level is Error || level is Warn || level is Info ==> f@ == "{h({l})} {d(%Y-%m-%d %H:%M:%S:%s)}:   {m}{n}\n"@,
{
    let simple_format: &str = "{h({l})} {d(%Y-%m-%d %H:%M:%S:%s)}:   {m}{n}\n";
    let full_format: &str = "{h({l})} {d(%Y-%m-%d %H:%M:%S:%s)} [{f}:{L}] {M}:    {m}{n}\n";
    match level {
        LogLevel::Off => "",
        LogLevel::Trace | LogLevel::Debug => full_format,
        _ => simple_format,
    }
}

} // verus!
