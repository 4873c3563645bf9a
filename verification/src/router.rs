//! Routing of the diagnostic messages that the driver raises: the severity
//! decides the log level, and the categories and the message make the text.

use vstd::prelude::*;
use crate::platform::{
    category_label,
    category_text,
    continue_verdict,
    error_severity,
    info_severity,
    warning_severity,
};

verus! {

/// The level at which a line is logged.
#[derive(Clone, Copy, Debug, PartialEq, Eq, Structural)]
pub enum LogLevel {
    Trace,
    Info,
    Warn,
    Error,
}

impl LogLevel {
    /// The place of the level in the order trace, info, warning, error.
    pub open spec fn rank(self) -> int {
        match self {
            LogLevel::Trace => 0,
            LogLevel::Info => 1,
            LogLevel::Warn => 2,
            LogLevel::Error => 3,
        }
    }
}

/// One line for the log.
#[derive(Debug)]
pub struct LogRecord {
    pub level: LogLevel,
    pub text: String,
}

/// What the router hands back for one message: the line to log and the word
/// that the driver receives.
#[derive(Debug)]
pub struct Routed {
    pub record: LogRecord,
    pub verdict: u32,
}

/// The level of a message of the given severity: the highest of the
/// thresholds error, warning and info that the severity reaches, and trace
/// below all of them.
pub open spec fn level_of(severity: u32) -> LogLevel {
    if severity >= 0x1000 {
        LogLevel::Error
    } else if severity >= 0x100 {
        LogLevel::Warn
    } else if severity >= 0x10 {
        LogLevel::Info
    } else {
        LogLevel::Trace
    }
}

/// The text of a routed message: the categories in round brackets, a space,
/// the message.
pub open spec fn rendered(label: Seq<char>, message: Seq<char>) -> Seq<char> {
    seq!['('] + label + seq![')', ' '] + message
}

/// Decides `level_of`.
pub fn resolve_level(severity: u32) -> (level: LogLevel)
    ensures
        level == level_of(severity),
{
    if severity >= error_severity() {
        LogLevel::Error
    } else if severity >= warning_severity() {
        LogLevel::Warn
    } else if severity >= info_severity() {
        LogLevel::Info
    } else {
        LogLevel::Trace
    }
}

/// Builds the text of a routed message from the categories' label and the
/// message.
pub fn render_message(label: &str, message: &str) -> (text: String)
    ensures
        text@ == rendered(label@, message@),
{
    proof {
        reveal_strlit("(");
        reveal_strlit(") ");
    }
    let mut text = String::from_str("(");
    text.append(label);
    text.append(") ");
    text.append(message);
    proof {
        assert("("@ =~= seq!['(']);
        assert(") "@ =~= seq![')', ' ']);
    }
    text
}

/// Routes one diagnostic message. The level follows from the severity alone,
/// the text from the categories and the message, and the verdict is always
/// zero: the call that raised the message goes on.
pub fn debug_callback(severity: u32, categories: u32, message: &str) -> (routed: Routed)
    ensures
        routed.record.level == level_of(severity),
        routed.record.text@ == rendered(category_text(categories), message@),
        routed.verdict == 0,
{
    let label = category_label(categories);
    let text = render_message(label.as_str(), message);
    Routed { record: LogRecord { level: resolve_level(severity), text }, verdict: continue_verdict() }
}

/// A message of higher severity is never logged at a lower level.
pub proof fn level_is_monotonic(lower: u32, higher: u32)
    requires
        lower <= higher,
    ensures
        level_of(lower).rank() <= level_of(higher).rank(),
{
}

/// Two messages of one severity are logged at one level, whatever their
/// categories and texts.
pub proof fn level_depends_on_severity_alone(
    severity: u32,
    first: Routed,
    first_categories: u32,
    first_message: Seq<char>,
    second: Routed,
    second_categories: u32,
    second_message: Seq<char>,
)
    requires
        routes(severity, first_categories, first_message, first),
        routes(severity, second_categories, second_message, second),
    ensures
        first.record.level == second.record.level,
        first.verdict == second.verdict,
{
}

/// What `debug_callback` promises of its result.
pub open spec fn routes(severity: u32, categories: u32, message: Seq<char>, routed: Routed) -> bool {
    &&& routed.record.level == level_of(severity)
    &&& routed.record.text@ == rendered(category_text(categories), message)
    &&& routed.verdict == 0
}

} // verus!
