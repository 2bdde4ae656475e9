//! Error taxonomy of the RPC client.
//!
//! Every failure is returned to the caller as a typed value; nothing here
//! panics. The dispatcher's errors carry the call's context (path, interface,
//! method) so a failure can be traced to the call that produced it.

use vstd::prelude::*;

verus! {

/// The component of a call request that failed validation while the request
/// was being built.
#[derive(PartialEq, Eq, Structural, Clone, Copy, Debug)]
pub enum RequestPart {
    Destination,
    Path,
    Interface,
    Method,
}

/// A terminal failure of one dispatched call.
///
/// Retryable transport failures never appear here: they are absorbed by the
/// dispatcher's retry loop and surface only as `RetriesExhausted` once the
/// attempt budget is spent.
#[derive(Debug)]
pub enum CallErrorKind {
    /// The request could not be built: one of its textual components is not
    /// a valid bus identifier.
    Construction { part: RequestPart },
    /// Every attempt up to the fixed ceiling saw a retryable failure.
    RetriesExhausted { ceiling: u64 },
    /// The transport reported an error whose symbolic name is not in the
    /// configured retryable set.
    Transport { error_name: Option<String>, details: String },
}

/// The endpoint identity of the call that failed, kept for diagnosis.
#[derive(Debug)]
pub struct CallContext {
    pub path: String,
    pub interface: String,
    pub method: String,
}

/// A dispatcher failure wrapped with the context of the failing call.
#[derive(Debug)]
pub struct CallFailure {
    pub context: CallContext,
    pub kind: CallErrorKind,
}

/// A failure of the value extractor.
#[derive(PartialEq, Eq, Structural, Clone, Copy, Debug)]
pub enum ExtractError {
    /// A reply held fewer fields than requested, or a field of the wrong
    /// shape.
    WrongResponseType,
    /// A single wire value did not match the requested target type.
    TypeMismatch,
    /// A wire value expected to be an iterable of integers was not.
    NotAnArray,
    /// A path's bytes are not valid text.
    Encoding,
}

impl ExtractError {
    /// The diagnostic phrase for this failure.
    pub open spec fn message_spec(&self) -> Seq<char> {
        match self {
            ExtractError::WrongResponseType => "Wrong response type"@,
            ExtractError::TypeMismatch => "Variant type does not match"@,
            ExtractError::NotAnArray => "Variant not an array"@,
            ExtractError::Encoding => "Path not a UTF-8 string"@,
        }
    }

    pub fn message(&self) -> (r: &'static str)
        ensures
            r@ == self.message_spec(),
    {
        match self {
            ExtractError::WrongResponseType => "Wrong response type",
            ExtractError::TypeMismatch => "Variant type does not match",
            ExtractError::NotAnArray => "Variant not an array",
            ExtractError::Encoding => "Path not a UTF-8 string",
        }
    }
}

/// How loudly a property failure should be reported.
///
/// A fetch failure is common and expected (services legitimately lack
/// properties), so it is only worth a debug event; a fetched value of the
/// wrong shape points at a schema mismatch and is reported as an error.
#[derive(PartialEq, Eq, Structural, Clone, Copy, Debug)]
pub enum Severity {
    Debug,
    Error,
}

/// A failure of a property read. The two variants differ only in severity,
/// not in how they are returned to the caller.
#[derive(Debug)]
pub enum PropertyError {
    /// The transport could not fetch the property at all.
    Fetch { details: Option<String> },
    /// The property was fetched but its wire value does not narrow to the
    /// requested type.
    WrongType,
}

impl PropertyError {
    pub fn severity(&self) -> (r: Severity)
        ensures
            r == (match self {
                PropertyError::Fetch { .. } => Severity::Debug,
                PropertyError::WrongType => Severity::Error,
            }),
    {
        match self {
            PropertyError::Fetch { .. } => Severity::Debug,
            PropertyError::WrongType => Severity::Error,
        }
    }
}

} // verus!
