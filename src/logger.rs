use vstd::prelude::*;

verus! {

/// Verbosity of the manager's log output.
#[derive(Clone, Copy, Debug, PartialEq, Eq, Structural)]
pub enum LogLevel {
    Info,
    Warn,
    Error,
    Trace,
    Debug,
}

/// The filter name of a log level, as logging back ends spell it.
pub open spec fn level_name(l: LogLevel) -> Seq<char> {
    match l {
        LogLevel::Info => "info"@,
        LogLevel::Warn => "warn"@,
        LogLevel::Error => "error"@,
        LogLevel::Trace => "trace"@,
        LogLevel::Debug => "debug"@,
    }
}

impl LogLevel {
    pub fn as_str(&self) -> (r: &'static str)
        ensures
            r@ == level_name(*self),
    {
        match self {
            LogLevel::Info => "info",
            LogLevel::Warn => "warn",
            LogLevel::Error => "error",
            LogLevel::Trace => "trace",
            LogLevel::Debug => "debug",
        }
    }
}

impl Default for LogLevel {
    fn default() -> (r: Self)
        ensures
            r == LogLevel::Info,
    {
        LogLevel::Info
    }
}

} // verus!
