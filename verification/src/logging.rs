//! Log levels of the driver, and the settings that choose them.

use vstd::prelude::*;
use vstd::string::StringExecFns;

verus! {

/// Log levels filter messages by severity.
#[derive(Copy, Clone, Debug, PartialEq, Eq, PartialOrd, Ord)]
pub enum LogLevel {
    Trace,
    Debug,
    Info,
    Warning,
    Error,
    Fatal,
    Off,
}

impl LogLevel {
    /// The number of the level, from 0 for `Trace` to 6 for `Off`.
    pub open spec fn spec_number(self) -> u8 {
        match self {
            LogLevel::Trace => 0,
            LogLevel::Debug => 1,
            LogLevel::Info => 2,
            LogLevel::Warning => 3,
            LogLevel::Error => 4,
            LogLevel::Fatal => 5,
            LogLevel::Off => 6,
        }
    }

    /// The name under which the driver knows the level.
    pub open spec fn spec_name(self) -> Seq<char> {
        match self {
            LogLevel::Trace => "trace"@,
            LogLevel::Debug => "debug"@,
            LogLevel::Info => "info"@,
            LogLevel::Warning => "warning"@,
            LogLevel::Error => "error"@,
            LogLevel::Fatal => "fatal"@,
            LogLevel::Off => "off"@,
        }
    }

    /// The number of the level.
    pub fn number(&self) -> (n: u8)
        ensures
            n == self.spec_number(),
    {
        match self {
            LogLevel::Trace => 0,
            LogLevel::Debug => 1,
            LogLevel::Info => 2,
            LogLevel::Warning => 3,
            LogLevel::Error => 4,
            LogLevel::Fatal => 5,
            LogLevel::Off => 6,
        }
    }

    /// The name under which the driver knows the level.
    pub fn to_string(&self) -> (name: String)
        ensures
            name@ == self.spec_name(),
    {
        let name = match self {
            LogLevel::Trace => "trace",
            LogLevel::Debug => "debug",
            LogLevel::Info => "info",
            LogLevel::Warning => "warning",
            LogLevel::Error => "error",
            LogLevel::Fatal => "fatal",
            LogLevel::Off => "off",
        };
        String::from_str(name)
    }
}

/// The value of the setting that switches fast-path logging off: `OFF` to
/// have the logging, `ON` to be rid of it.
pub fn fastpath_disable_value(en: bool) -> (value: &'static str)
    ensures
        value@ == if en {
            "OFF"@
        } else {
            "ON"@
        },
{
    if en {
        "OFF"
    } else {
        "ON"
    }
}

/// Whether fast-path logging is on, given the value of the setting that
/// switches it off. It is on unless that value is `ON`.
pub fn fastpath_logging_enabled(disable_value: &str) -> (enabled: bool)
    ensures
        enabled == (disable_value@ != "ON"@),
{
    let given = String::from_str(disable_value);
    let on = String::from_str("ON");
    !(given == on)
}

} // verus!
