//! Structured log records. Each `log_*` function builds the record that one
//! JSON log line carries; stamping, rendering and writing it out belong to
//! the caller.
use vstd::prelude::*;
use vstd::string::StringExecFns;
use crate::errors::SystemError;

verus! {

/// Severity of a log line.
#[derive(Debug, Clone, Copy, PartialEq, Eq, Structural)]
pub enum LogLevel {
    Info,
    Warn,
    Error,
    Critical,
}

impl LogLevel {
    pub open spec fn spec_label(self) -> Seq<char> {
        match self {
            LogLevel::Info => "INFO"@,
            LogLevel::Warn => "WARN"@,
            LogLevel::Error => "ERROR"@,
            LogLevel::Critical => "CRITICAL"@,
        }
    }

    /// The label written in the `level` field.
    pub fn label(&self) -> (s: &'static str)
        ensures
            s@ == self.spec_label(),
    {
        match self {
            LogLevel::Info => "INFO",
            LogLevel::Warn => "WARN",
            LogLevel::Error => "ERROR",
            LogLevel::Critical => "CRITICAL",
        }
    }
}

/// The content of one log line: level, origin, message and the optional
/// `context` and `error_code` fields.
#[derive(Debug)]
pub struct LogEvent {
    pub level: LogLevel,
    pub module: String,
    pub function: String,
    pub message: String,
    pub context: Option<String>,
    pub error_code: Option<String>,
}

/// The message of a critical line: the error's message followed by its code
/// in brackets.
pub open spec fn critical_message(err: SystemError) -> Seq<char> {
    err.message@ + " ["@ + err.code.spec_name() + "]"@
}

fn event(level: LogLevel, module: &str, function: &str, message: &str, context: Option<&str>) -> (e: LogEvent)
    ensures
        e.level == level,
        e.module@ == module@,
        e.function@ == function@,
        e.message@ == message@,
        context is None ==> e.context is None,
        context is Some ==> e.context is Some && e.context->0@ == context->0@,
        e.error_code is None,
{
    let context = match context {
        Some(c) => Some(c.to_owned()),
        None => None,
    };
    LogEvent {
        level,
        module: module.to_owned(),
        function: function.to_owned(),
        message: message.to_owned(),
        context,
        error_code: None,
    }
}

/// The record of an informational line.
pub fn log_info(module: &str, function: &str, message: &str) -> (e: LogEvent)
    ensures
        e.level == LogLevel::Info,
        e.module@ == module@,
        e.function@ == function@,
        e.message@ == message@,
        e.context is None,
        e.error_code is None,
{
    event(LogLevel::Info, module, function, message, None)
}

/// The record of a warning line.
pub fn log_warn(module: &str, function: &str, message: &str) -> (e: LogEvent)
    ensures
        e.level == LogLevel::Warn,
        e.module@ == module@,
        e.function@ == function@,
        e.message@ == message@,
        e.context is None,
        e.error_code is None,
{
    event(LogLevel::Warn, module, function, message, None)
}

/// The record of an error line; `error_details` become its context.
pub fn log_error(module: &str, function: &str, message: &str, error_details: Option<&str>) -> (e: LogEvent)
    ensures
        e.level == LogLevel::Error,
        e.module@ == module@,
        e.function@ == function@,
        e.message@ == message@,
        error_details is None ==> e.context is None,
        error_details is Some ==> e.context is Some && e.context->0@ == error_details->0@,
        e.error_code is None,
{
    event(LogLevel::Error, module, function, message, error_details)
}

/// The record of a critical line reporting `err`: its origin, its message
/// tagged with the code, its context dump, and the code's name.
pub fn log_critical_error(err: &SystemError) -> (e: LogEvent)
    ensures
        e.level == LogLevel::Critical,
        e.module@ == err.module@,
        e.function@ == err.function@,
        e.message@ == critical_message(*err),
        err.context_dump is None ==> e.context is None,
        err.context_dump is Some ==> e.context is Some && e.context->0@ == err.context_dump->0@,
        e.error_code is Some && e.error_code->0@ == err.code.spec_name(),
{
    let mut message = String::from_str(err.message.as_str());
    message.append(" [");
    message.append(err.code.name());
    message.append("]");
    let context = match &err.context_dump {
        Some(c) => Some(String::from_str(c.as_str())),
        None => None,
    };
    LogEvent {
        level: LogLevel::Critical,
        module: err.module.to_owned(),
        function: err.function.to_owned(),
        message,
        context,
        error_code: Some(String::from_str(err.code.name())),
    }
}

} // verus!
