//! What the sender of a request to the node makes of the node's answer.
use vstd::prelude::*;
use crate::error::{RaftError, RaftResult};

verus! {

/// The node's answer to a request.
#[derive(Clone, Debug, PartialEq, Eq)]
pub enum RaftResponse {
    /// The proposal was committed and applied; `data` is what applying it answered.
    Response { data: Vec<u8> },
    /// The request was carried out.
    Acknowledged,
}

/// The result of a proposal, given the answer (`None` when the proposal could not be
/// handed over or no answer came in time): the applied answer's data, else `Unknown`.
pub fn proposal_outcome(reply: Option<RaftResponse>) -> (r: RaftResult<Vec<u8>>)
    ensures
        reply matches Some(RaftResponse::Response { data }) ==> r is Ok && r->Ok_0 == data,
        !(reply matches Some(RaftResponse::Response { .. })) ==> r is Err && r->Err_0 == RaftError::Unknown,
{
    match reply {
        Some(RaftResponse::Response { data }) => Ok(data),
        _ => Err(RaftError::Unknown),
    }
}

/// The result of a request to leave, given the answer (`None` when the request could
/// not be handed over or the node dropped it): `Ok` only when the node acknowledged it.
pub fn leave_outcome(reply: Option<RaftResponse>) -> (r: RaftResult<()>)
    ensures
        reply matches Some(RaftResponse::Acknowledged) ==> r is Ok,
        !(reply matches Some(RaftResponse::Acknowledged)) ==> r is Err && r->Err_0 == RaftError::Unknown,
{
    match reply {
        Some(RaftResponse::Acknowledged) => Ok(()),
        _ => Err(RaftError::Unknown),
    }
}

} // verus!
