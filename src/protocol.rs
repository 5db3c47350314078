use vstd::prelude::*;

use crate::error::{classified, classify_rejection, CallContext, CallError, MintToolError};
use crate::metadata::{build_metadata_part, entries_view, metadata_record, MintRequest};
use crate::types::{InterfaceId, MetadataKey, MetadataPart, MetadataPurpose, MetadataValue, MintError, MintReceipt};

verus! {

/// The terminal outcome of a mint call that reached the application.
#[derive(Clone, Copy, Debug, PartialEq, Eq, Structural)]
pub enum MintOutcome {
    Success(MintReceipt),
    Denied(MintError),
}

impl MintOutcome {
    pub fn is_success(&self) -> (r: bool)
        ensures
            r == (self is Success),
    {
        match self {
            MintOutcome::Success(_) => true,
            MintOutcome::Denied(_) => false,
        }
    }
}

/// Whether the declared interfaces include minting.
pub open spec fn declares_mint(interfaces: Seq<InterfaceId>) -> bool {
    exists|i: int| 0 <= i < interfaces.len() && interfaces[i] == InterfaceId::Mint
}

/// The result of the capability gate for a given reply of the query.
pub open spec fn gate_result(reply: Result<Vec<InterfaceId>, CallError>) -> Result<(), MintToolError> {
    match reply {
        Err(e) => Err(classified(e, CallContext::CapabilityQuery)),
        Ok(interfaces) => if declares_mint(interfaces@) {
            Ok(())
        } else {
            Err(MintToolError::CapabilityMissing)
        },
    }
}

/// The outcome of the mint call for a given reply.
pub open spec fn mint_result(
    reply: Result<Result<MintReceipt, MintError>, CallError>,
) -> Result<MintOutcome, MintToolError> {
    match reply {
        Err(e) => Err(classified(e, CallContext::Mint)),
        Ok(Ok(receipt)) => Ok(MintOutcome::Success(receipt)),
        Ok(Err(reason)) => Ok(MintOutcome::Denied(reason)),
    }
}

/// Whether `interfaces` holds `InterfaceId::Mint`.
pub fn supports_mint(interfaces: &Vec<InterfaceId>) -> (r: bool)
    ensures
        r == declares_mint(interfaces@),
{
    let mut i: usize = 0;
    while i < interfaces.len()
        invariant
            0 <= i <= interfaces.len(),
            forall|j: int| 0 <= j < i ==> interfaces@[j] != InterfaceId::Mint,
        decreases interfaces.len() - i,
    {
        if interfaces[i] == InterfaceId::Mint {
            return true;
        }
        i = i + 1;
    }
    false
}

/// The capability gate: passes when the query's reply declares minting,
/// fails with `CapabilityMissing` when it does not, and classifies a failed
/// query (the "method not implemented" code means the service does not
/// expose the query at all).
pub fn check_capabilities(reply: Result<Vec<InterfaceId>, CallError>) -> (r: Result<
    (),
    MintToolError,
>)
    ensures
        r == gate_result(reply),
{
    match reply {
        Err(e) => Err(classify_rejection(e, CallContext::CapabilityQuery)),
        Ok(interfaces) => {
            if supports_mint(&interfaces) {
                Ok(())
            } else {
                Err(MintToolError::CapabilityMissing)
            }
        },
    }
}

/// Interprets the reply of the mint call: a failed call is classified, a
/// receipt is a success, and a denial is returned as a normal outcome.
pub fn interpret_mint_reply(reply: Result<Result<MintReceipt, MintError>, CallError>) -> (r: Result<
    MintOutcome,
    MintToolError,
>)
    ensures
        r == mint_result(reply),
{
    match reply {
        Err(e) => Err(classify_rejection(e, CallContext::Mint)),
        Ok(Ok(receipt)) => Ok(MintOutcome::Success(receipt)),
        Ok(Err(reason)) => Ok(MintOutcome::Denied(reason)),
    }
}

/// A query rejected with the "method not implemented" code always makes the
/// gate fail with `UnsupportedService`, carrying the rejection's message; it is
/// never a protocol error and never a pass.
pub proof fn lemma_unimplemented_query_is_unsupported_service(message: String)
    ensures
        gate_result(Err(CallError::Rejected { code: 3, message })) == Err::<(), MintToolError>(
            MintToolError::UnsupportedService { code: 3, message },
        ),
{
}

/// A mint reply that carries a denial is an outcome, not an error.
pub proof fn lemma_denial_is_outcome(reason: MintError)
    ensures
        mint_result(Ok(Err(reason))) == Ok::<MintOutcome, MintToolError>(
            MintOutcome::Denied(reason),
        ),
{
}

/// The arguments of the mint call: the owner's principal bytes, a list of
/// exactly one metadata part, and the content bytes again.
pub struct MintCall {
    pub owner: Vec<u8>,
    pub parts: Vec<MetadataPart>,
    pub content: Vec<u8>,
}

/// Prepares the mint call for `owner` from a request; fails exactly where
/// the request's metadata record cannot be built.
pub fn prepare_mint_call(owner: Vec<u8>, req: MintRequest) -> (r: Result<MintCall, MintToolError>)
    ensures
        match r {
            Ok(call) => {
                &&& call.owner@ == owner@
                &&& call.parts@.len() == 1
                &&& call.parts@[0].purpose == MetadataPurpose::Rendered
                &&& metadata_record(req) == Ok::<Seq<(MetadataKey, MetadataValue)>, MintToolError>(
                    entries_view(call.parts@[0].key_val_data@),
                )
                &&& call.parts@[0].data@ == req.content()
                &&& call.content@ == req.content()
            },
            Err(e) => metadata_record(req) == Err::<
                Seq<(MetadataKey, MetadataValue)>,
                MintToolError,
            >(e),
        },
{
    let part = match build_metadata_part(req) {
        Ok(p) => p,
        Err(e) => {
            return Err(e);
        },
    };
    let content = part.data.clone();
    assert(content@ =~= part.data@);
    let mut parts: Vec<MetadataPart> = Vec::new();
    parts.push(part);
    Ok(MintCall { owner, parts, content })
}

} // verus!
