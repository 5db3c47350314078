use vstd::prelude::*;

verus! {

/// The rejection code the remote call layer gives when the called method
/// does not exist on the target (it can also mean other rejections by the
/// destination; the two cannot be told apart).
pub const METHOD_NOT_IMPLEMENTED: u64 = 3;

/// How a remote call failed before producing an application-level reply.
#[derive(Debug)]
pub enum CallError {
    /// The call layer rejected the call with a numeric code and a message.
    Rejected { code: u64, message: String },
    /// Any other failure of the transport (network, certificate, timeout).
    Other { message: String },
}

/// Which remote call a failure belongs to.
#[derive(Clone, Copy, Debug, PartialEq, Eq, Structural)]
pub enum CallContext {
    /// The no-argument query for the declared interfaces.
    CapabilityQuery,
    /// The privileged mint call.
    Mint,
}

/// Every failure this library reports.
#[derive(Debug)]
pub enum MintToolError {
    /// More than one of content address, container reference and URI given.
    ConflictingLocation,
    /// An external URI was given without a content hash.
    MissingHash,
    /// The content address or the container reference does not parse.
    MalformedIdentifier,
    /// The external reference is not a syntactically valid URI.
    InvalidUri,
    /// The explicit content hash is not valid hex.
    MalformedHash,
    /// The capability query does not exist on the service.
    UnsupportedService { code: u64, message: String },
    /// The mint call does not exist on the service.
    UnsupportedOperation { code: u64, message: String },
    /// The service does not declare the mint capability.
    CapabilityMissing,
    /// Any other failure of a remote call, passed on as it came.
    ProtocolError { error: CallError },
}

/// The error that a failed call in `context` becomes.
pub open spec fn classified(error: CallError, context: CallContext) -> MintToolError {
    match error {
        CallError::Rejected { code, message } => if code == METHOD_NOT_IMPLEMENTED {
            match context {
                CallContext::CapabilityQuery => MintToolError::UnsupportedService { code, message },
                CallContext::Mint => MintToolError::UnsupportedOperation { code, message },
            }
        } else {
            MintToolError::ProtocolError { error: CallError::Rejected { code, message } }
        },
        CallError::Other { message } => MintToolError::ProtocolError {
            error: CallError::Other { message },
        },
    }
}

/// Reinterprets a failed remote call: the "method not implemented" code
/// becomes an error saying that the service lacks the interface or the
/// operation, keeping the rejection's code and message; anything else is
/// passed on unchanged. Only the code is looked at, never the message.
pub fn classify_rejection(error: CallError, context: CallContext) -> (r: MintToolError)
    ensures
        r == classified(error, context),
{
    match error {
        CallError::Rejected { code, message } => {
            if code == METHOD_NOT_IMPLEMENTED {
                match context {
                    CallContext::CapabilityQuery => MintToolError::UnsupportedService {
                        code,
                        message,
                    },
                    CallContext::Mint => MintToolError::UnsupportedOperation { code, message },
                }
            } else {
                MintToolError::ProtocolError { error: CallError::Rejected { code, message } }
            }
        },
        CallError::Other { message } => MintToolError::ProtocolError {
            error: CallError::Other { message },
        },
    }
}

impl MintToolError {
    /// A hint on what to do about the error, where there is one.
    pub fn hint(&self) -> (r: Option<&'static str>)
        ensures
            match self {
                MintToolError::UnsupportedService { .. } => r == Some(
                    "the service does not appear to implement the DIP-721 interface",
                ),
                MintToolError::UnsupportedOperation { .. } => r == Some(
                    "the service may not implement the mint operation",
                ),
                MintToolError::CapabilityMissing => r == Some("the service does not support minting"),
                MintToolError::MissingHash => r == Some(
                    "a content hash is required when the content is given by URI",
                ),
                MintToolError::ConflictingLocation => r == Some(
                    "give at most one of content address, container reference and URI",
                ),
                _ => r is None,
            },
    {
        match self {
            MintToolError::UnsupportedService { .. } => Some(
                "the service does not appear to implement the DIP-721 interface",
            ),
            MintToolError::UnsupportedOperation { .. } => Some(
                "the service may not implement the mint operation",
            ),
            MintToolError::CapabilityMissing => Some("the service does not support minting"),
            MintToolError::MissingHash => Some(
                "a content hash is required when the content is given by URI",
            ),
            MintToolError::ConflictingLocation => Some(
                "give at most one of content address, container reference and URI",
            ),
            _ => None,
        }
    }
}

} // verus!
