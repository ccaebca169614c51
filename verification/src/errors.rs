use vstd::prelude::*;

verus! {

/// The failure kinds of the deployment-state engine. Every fallible step
/// aborts the current verb with one of these.
#[derive(Debug)]
pub enum HelmError {
    /// The source config names no trust anchor and does not explicitly opt
    /// out of TLS peer verification.
    ConfigInvariantViolation,
    /// A shell command exited with a non-zero status; carries the literal
    /// command text.
    CommandExecutionFailure(String),
    /// The cluster API could not be reached, or its response was not a JSON
    /// object.
    NetworkOrApiFailure,
    /// The connection's base URL cannot accept appended path segments.
    UrlConstructionFailure,
    /// An override mapping could not be serialized.
    SerializationFailure,
}

} // verus!
