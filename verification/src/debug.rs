//! The debug messenger: what it listens to and how it reports messages.

use vstd::prelude::*;
use crate::text::owned;
use crate::vk::{MESSAGE_SEVERITY_VERBOSE, MESSAGE_SEVERITY_INFO, MESSAGE_SEVERITY_WARNING, MESSAGE_SEVERITY_ERROR};
use crate::vk::{MESSAGE_TYPE_GENERAL, MESSAGE_TYPE_VALIDATION, MESSAGE_TYPE_PERFORMANCE};

verus! {

/// The label of a message severity: one of the four severities, or unknown
/// for any other mask (including combined ones).
pub open spec fn spec_severity_label(message_severity: u32) -> Seq<char> {
    if message_severity == MESSAGE_SEVERITY_VERBOSE {
        "[VERBOSE]"@
    } else if message_severity == MESSAGE_SEVERITY_INFO {
        "[INFO]"@
    } else if message_severity == MESSAGE_SEVERITY_WARNING {
        "[WARNING]"@
    } else if message_severity == MESSAGE_SEVERITY_ERROR {
        "[ERROR]"@
    } else {
        "[UNKNOWN]"@
    }
}

/// The label of a message severity in the log.
pub fn severity_label(message_severity: u32) -> (res: &'static str)
    ensures
        res@ == spec_severity_label(message_severity),
{
    if message_severity == MESSAGE_SEVERITY_VERBOSE {
        "[VERBOSE]"
    } else if message_severity == MESSAGE_SEVERITY_INFO {
        "[INFO]"
    } else if message_severity == MESSAGE_SEVERITY_WARNING {
        "[WARNING]"
    } else if message_severity == MESSAGE_SEVERITY_ERROR {
        "[ERROR]"
    } else {
        "[UNKNOWN]"
    }
}

/// The label of a message type: one of the three types, or unknown.
pub open spec fn spec_message_type_label(message_type: u32) -> Seq<char> {
    if message_type == MESSAGE_TYPE_GENERAL {
        "[GENERAL]"@
    } else if message_type == MESSAGE_TYPE_VALIDATION {
        "[VALIDATION]"@
    } else if message_type == MESSAGE_TYPE_PERFORMANCE {
        "[PERFORMANCE]"@
    } else {
        "[UNKNOWN]"@
    }
}

/// The label of a message type in the log.
pub fn message_type_label(message_type: u32) -> (res: &'static str)
    ensures
        res@ == spec_message_type_label(message_type),
{
    if message_type == MESSAGE_TYPE_GENERAL {
        "[GENERAL]"
    } else if message_type == MESSAGE_TYPE_VALIDATION {
        "[VALIDATION]"
    } else if message_type == MESSAGE_TYPE_PERFORMANCE {
        "[PERFORMANCE]"
    } else {
        "[UNKNOWN]"
    }
}

/// The log level a message is reported at.
#[derive(Clone, Copy, Debug, PartialEq, Eq, Structural)]
pub enum LogLevel {
    Info,
    Warn,
    Error,
}

/// Errors at error level, warnings at warning level, everything else
/// (verbose, info, unknown) at info level.
pub fn log_level(message_severity: u32) -> (res: LogLevel)
    ensures
        res == if message_severity == MESSAGE_SEVERITY_ERROR {
            LogLevel::Error
        } else if message_severity == MESSAGE_SEVERITY_WARNING {
            LogLevel::Warn
        } else {
            LogLevel::Info
        },
{
    if message_severity == MESSAGE_SEVERITY_ERROR {
        LogLevel::Error
    } else if message_severity == MESSAGE_SEVERITY_WARNING {
        LogLevel::Warn
    } else {
        LogLevel::Info
    }
}

/// The message types the messenger listens to: all three.
pub fn messenger_message_types() -> (res: u32)
    ensures
        res == MESSAGE_TYPE_GENERAL | MESSAGE_TYPE_VALIDATION | MESSAGE_TYPE_PERFORMANCE,
{
    MESSAGE_TYPE_GENERAL | MESSAGE_TYPE_VALIDATION | MESSAGE_TYPE_PERFORMANCE
}

/// The severities the instance-creation messenger listens to: all four.
pub fn debug_create_severities() -> (res: u32)
    ensures
        res == MESSAGE_SEVERITY_ERROR | MESSAGE_SEVERITY_WARNING | MESSAGE_SEVERITY_INFO | MESSAGE_SEVERITY_VERBOSE,
{
    MESSAGE_SEVERITY_ERROR | MESSAGE_SEVERITY_WARNING | MESSAGE_SEVERITY_INFO | MESSAGE_SEVERITY_VERBOSE
}

/// A messenger needs validation layers; `validation_layer_count` is how many
/// the instance was created with.
pub fn check_messenger_layers(validation_layer_count: usize) -> (res: Result<(), String>)
    ensures
        validation_layer_count == 0 ==> (res matches Err(msg) && msg@ == "no available validation layers"@),
        validation_layer_count > 0 ==> res is Ok,
{
    if validation_layer_count == 0 {
        return Err(owned("no available validation layers"));
    }
    Ok(())
}

} // verus!
