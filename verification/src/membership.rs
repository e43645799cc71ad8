//! How a node joins a cluster and leaves it: the decisions, apart from the calls
//! that carry them out.
use vstd::prelude::*;
use std::collections::HashMap;
use vstd::bytes::{lemma_auto_spec_u64_to_from_le_bytes, spec_u64_to_le_bytes};
use vstd::utf8::{encode_utf8, encode_utf8_decode_utf8, encode_utf8_valid_utf8};
use crate::codec::{decode_assignment, decode_redirect, decoded_assignment, decoded_redirect, encode_string, encoded_string};
use crate::error::{RaftError, RaftResult};
use crate::types::{ConfChange, ConfChangeType};

verus! {

/// The answer code of a request for a node id.
#[derive(Clone, Copy, Debug, PartialEq, Eq)]
pub enum ResultCode {
    Success,
    Error,
    WrongLeader,
}

/// What the leader hands a joining node: its own id, the new node's id, and the
/// addresses of the other nodes.
pub struct JoinAssignment {
    pub leader_id: u64,
    pub node_id: u64,
    pub peer_addrs: HashMap<u64, String>,
}

/// The next step of a node that asks to join.
pub enum JoinStep {
    /// Ask again, at this address, which is the leader's.
    Redirect { leader_addr: String },
    /// Joined: the leader assigned an id.
    Assigned(JoinAssignment),
}

/// Decides what a joining node does with the answer to its request for an id: follow a
/// redirect to the leader, take the assignment, or give up with `JoinError`. An answer
/// whose data does not decode fails with the decoder's message.
pub fn join_step(code: ResultCode, data: &[u8]) -> (r: RaftResult<JoinStep>)
    ensures
        code == ResultCode::Error ==> r is Err && r->Err_0 == RaftError::JoinError,
        code == ResultCode::WrongLeader ==> {
            &&& r is Ok <==> decoded_redirect(data@) is Some
            &&& r is Ok ==> (r->Ok_0 matches JoinStep::Redirect { leader_addr }
                && leader_addr@ == decoded_redirect(data@)->Some_0.1)
            &&& r is Err ==> r->Err_0 is Other
        },
        code == ResultCode::Success ==> {
            &&& r is Ok <==> decoded_assignment(data@) is Some
            &&& r is Ok ==> (r->Ok_0 matches JoinStep::Assigned(a)
                && decoded_assignment(data@) == Some((a.leader_id, a.node_id, a.peer_addrs@)))
            &&& r is Err ==> r->Err_0 is Other
        },
{
    match code {
        ResultCode::WrongLeader => match decode_redirect(data) {
            Ok((_leader_id, leader_addr)) => Ok(JoinStep::Redirect { leader_addr }),
            Err(e) => Err(RaftError::Other(e)),
        },
        ResultCode::Success => match decode_assignment(data) {
            Ok((leader_id, node_id, peer_addrs)) => Ok(JoinStep::Assigned(JoinAssignment { leader_id, node_id, peer_addrs })),
            Err(e) => Err(RaftError::Other(e)),
        },
        ResultCode::Error => Err(RaftError::JoinError),
    }
}

/// A leader's id followed by its encoded address redirects a joining node to that address.
pub proof fn redirect_names_encoded_leader(leader_id: u64, addr: Seq<char>)
    requires
        encode_utf8(addr).len() <= u64::MAX,
    ensures
        decoded_redirect(spec_u64_to_le_bytes(leader_id) + encoded_string(addr)) == Some((leader_id, addr)),
{
    lemma_auto_spec_u64_to_from_le_bytes();
    encode_utf8_valid_utf8(addr);
    encode_utf8_decode_utf8(addr);
    let b = encode_utf8(addr);
    let n = b.len() as u64;
    let bytes = spec_u64_to_le_bytes(leader_id) + encoded_string(addr);
    assert(spec_u64_to_le_bytes(n).len() == 8);
    assert(bytes.subrange(0, 8) =~= spec_u64_to_le_bytes(leader_id));
    assert(bytes.subrange(8, 16) =~= spec_u64_to_le_bytes(n));
    assert(bytes.subrange(16, 16 + n) =~= b);
}

/// The membership change by which node `node_id`, reachable at `addr`, asks to be added;
/// its context carries the encoded address.
pub fn join_request(node_id: u64, addr: &String) -> (r: RaftResult<ConfChange>)
    ensures
        r is Ok,
        r->Ok_0.id == 0,
        r->Ok_0.change_type == ConfChangeType::AddNode,
        r->Ok_0.node_id == node_id,
        r->Ok_0.context@ == encoded_string(addr@),
{
    match encode_string(addr) {
        Ok(context) => Ok(ConfChange { id: 0, change_type: ConfChangeType::AddNode, node_id, context }),
        Err(e) => Err(RaftError::Other(e)),
    }
}

/// The membership change by which a node asks to be removed: node id 0 stands for the
/// node that receives it.
pub fn leave_request() -> (c: ConfChange)
    ensures
        c.id == 0,
        c.change_type == ConfChangeType::RemoveNode,
        c.node_id == 0,
        c.context@ == Seq::<u8>::empty(),
{
    ConfChange { id: 0, change_type: ConfChangeType::RemoveNode, node_id: 0, context: Vec::new() }
}

} // verus!
