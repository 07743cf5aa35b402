use vstd::prelude::*;

verus! {

/// Every way an operation of the library can fail.
#[derive(Debug, Clone)]
pub enum OptimizeError {
    /// The input text is empty or whitespace only.
    EmptyInput,
    /// The trimmed input is longer than the ceiling, in characters.
    InputTooLong(usize),
    /// The daily limit of requests is used up.
    QuotaExceeded(u32),
    /// No credential is available from the configured source.
    CredentialMissing,
    /// A credential that is blank once trimmed was submitted.
    InvalidCredential,
    /// The persisted store could not be read or written.
    StoreIOError(String),
    /// The provider answered with a non-success status and this body.
    ProviderError(u16, String),
    /// The request could not be sent, or the reply could not be read.
    TransportError(String),
    /// The stored provider mode names no known source.
    UnknownProviderMode(String),
}

} // verus!
