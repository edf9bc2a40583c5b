//! Error reports surfaced to the consumer.
//!
//! A titled message with a severity, handed to whatever front end presents
//! it. Only the value and its construction live here.

use vstd::prelude::*;

verus! {

/// How bad an error is: recoverable, fatal to the session, or unknown.
#[derive(Debug, Clone, Copy, PartialEq, Eq, Structural)]
pub enum ErrorSeverity {
    Minimal,
    Critical,
    Unknown,
}

/// One error report: a title, a fuller message, and a severity.
#[derive(Debug, Clone)]
pub struct ErrorInfo {
    pub error_title: String,
    pub error_message: String,
    pub severity: ErrorSeverity,
}

impl ErrorInfo {
    /// An error report with the given title, message and severity.
    pub fn new(error_title: String, error_message: String, severity: ErrorSeverity) -> (e:
        ErrorInfo)
        ensures
            e.error_title@ == error_title@,
            e.error_message@ == error_message@,
            e.severity == severity,
    {
        ErrorInfo { error_title, error_message, severity }
    }
}

impl Default for ErrorInfo {
    /// The report shown when even the error itself could not be determined.
    fn default() -> (e: ErrorInfo)
        ensures
            e.error_title@ == "Unknown Error!"@,
            e.error_message@ == "Error determining the error message!\nSeverity: None"@,
            e.severity is Unknown,
    {
        ErrorInfo {
            error_title: "Unknown Error!".to_owned(),
            error_message: "Error determining the error message!\nSeverity: None".to_owned(),
            severity: ErrorSeverity::Unknown,
        }
    }
}

} // verus!
