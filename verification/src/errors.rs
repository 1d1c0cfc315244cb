//! The gateway's error taxonomy: client-caused argument errors and
//! server-caused dispatch failures, kept apart so each adapter can map
//! them onto its transport's native error representation.

use vstd::prelude::*;
use vstd::string::StringExecFns;

verus! {

/// A decoding failure: why a transport payload was rejected before
/// dispatch. Always the client's fault.
pub enum ArgumentError {
    /// The argument text did not parse as JSON; carries the parse
    /// diagnostic.
    Malformed(String),
    /// A required request field was absent; carries the field's name.
    MissingField(String),
}

/// A failure raised by the execution collaborator; carries its account
/// of what went wrong. Always the server's fault.
pub struct DispatchError {
    pub message: String,
}

/// Everything that can go wrong on a request's way through the gateway.
pub enum GatewayError {
    Argument(ArgumentError),
    Dispatch(DispatchError),
}

/// A short human-readable account of an argument error.
pub fn argument_error_text(e: &ArgumentError) -> (t: String)
    ensures
        e matches ArgumentError::Malformed(d) ==> t@ == "malformed arguments: "@ + d@,
        e matches ArgumentError::MissingField(f) ==> t@ == "missing required field: "@ + f@,
{
    match e {
        ArgumentError::Malformed(d) => {
            let mut t = "malformed arguments: ".to_owned();
            t.append(d.as_str());
            t
        },
        ArgumentError::MissingField(f) => {
            let mut t = "missing required field: ".to_owned();
            t.append(f.as_str());
            t
        },
    }
}

} // verus!
