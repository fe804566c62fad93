//! Error codes and error values of command validation and execution.

use vstd::prelude::*;

verus! {

/// Classification of an IEC 104 validation or execution failure.
#[derive(Clone, Copy, Debug, PartialEq, Eq, Structural)]
pub enum Iec104ErrorCode {
    InvalidCommonAddress,
    InvalidObjectAddress,
    InvalidQualifier,
    InvalidValue,
    UnsupportedCommand,
    ProtocolState,
    NotConnected,
    SendFailed,
}

/// A rejected command or frame: a code and a human readable message.
#[derive(Clone, Debug)]
pub struct Iec104ValidationError {
    pub code: Iec104ErrorCode,
    pub message: String,
}

/// The abstract value of an error: its code and the characters of its message.
pub open spec fn err_view(e: Iec104ValidationError) -> (Iec104ErrorCode, Seq<char>) {
    (e.code, e.message@)
}

/// The first failure of two checks performed in order.
pub open spec fn first_failure(
    a: Option<(Iec104ErrorCode, Seq<char>)>,
    b: Option<(Iec104ErrorCode, Seq<char>)>,
) -> Option<(Iec104ErrorCode, Seq<char>)> {
    if a is Some { a } else { b }
}

/// A check result in terms of its abstract failure.
pub open spec fn check_matches(
    r: Result<(), Iec104ValidationError>,
    f: Option<(Iec104ErrorCode, Seq<char>)>,
) -> bool {
    match r {
        Ok(_) => f is None,
        Err(e) => f == Some(err_view(e)),
    }
}

/// A command that could not be executed, with the trace id it was given.
#[derive(Clone, Debug)]
pub struct Iec104ExecutionError {
    pub code: Iec104ErrorCode,
    pub message: String,
    pub trace_id: Option<String>,
}

impl Iec104ExecutionError {
    /// A validation failure carried over, under the trace id of the command.
    pub fn from_validation(err: Iec104ValidationError, trace_id: String) -> (r: Self)
        ensures
            r.code == err.code,
            r.message == err.message,
            r.trace_id == Some(trace_id),
    {
        Iec104ExecutionError { code: err.code, message: err.message, trace_id: Some(trace_id) }
    }
}

} // verus!
