use std::collections::HashMap;
use eb_raft::error::RaftError;
use eb_raft::kv::{HashStore, Message};
use eb_raft::mailbox::{leave_outcome, proposal_outcome, RaftResponse};
use eb_raft::membership::{join_request, join_step, leave_request, JoinStep, ResultCode};
use eb_raft::retry::{after_send_failure, RetryDecision};
use eb_raft::types::ConfChangeType;

#[test]
fn insert_answers_encoded_value() {
    let mut store = HashStore::new();
    let answer = store.apply(Message::Insert { key: 7, value: "hello".to_string() }).unwrap();
    assert_eq!(answer, vec![5, 0, 0, 0, 0, 0, 0, 0, b'h', b'e', b'l', b'l', b'o']);
    assert_eq!(answer, bincode::serialize(&"hello".to_string()).unwrap());
    assert_eq!(store.get(7), Some("hello".to_string()));
    assert_eq!(store.get(8), None);
}

#[test]
fn insert_overwrites_and_keeps_other_keys() {
    let mut store = HashStore::new();
    store.apply(Message::Insert { key: 1, value: "a".to_string() }).unwrap();
    store.apply(Message::Insert { key: 2, value: "b".to_string() }).unwrap();
    let answer = store.apply(Message::Insert { key: 1, value: "é".to_string() }).unwrap();
    assert_eq!(answer, vec![2, 0, 0, 0, 0, 0, 0, 0, 0xc3, 0xa9]);
    assert_eq!(store.get(1), Some("é".to_string()));
    assert_eq!(store.get(2), Some("b".to_string()));
}

#[test]
fn snapshot_restores_what_it_was_taken_of() {
    let mut store = HashStore::new();
    store.apply(Message::Insert { key: 1, value: "one".to_string() }).unwrap();
    store.apply(Message::Insert { key: 2, value: "two".to_string() }).unwrap();
    let bytes = store.snapshot().unwrap();
    let decoded: HashMap<u64, String> = bincode::deserialize(&bytes).unwrap();
    assert_eq!(decoded.len(), 2);
    let mut other = HashStore::new();
    other.apply(Message::Insert { key: 9, value: "nine".to_string() }).unwrap();
    assert_eq!(other.restore(&bytes), Ok(()));
    assert_eq!(other.get(1), Some("one".to_string()));
    assert_eq!(other.get(2), Some("two".to_string()));
    assert_eq!(other.get(9), None);
}

#[test]
fn try_restore_refuses_garbage() {
    let mut store = HashStore::new();
    store.apply(Message::Insert { key: 3, value: "x".to_string() }).unwrap();
    assert!(!store.try_restore(&[1, 2, 3]));
    assert_eq!(store.get(3), Some("x".to_string()));
    let empty = HashStore::new().snapshot().unwrap();
    assert!(store.try_restore(&empty));
    assert_eq!(store.get(3), None);
}

#[test]
fn join_refused() {
    assert!(matches!(join_step(ResultCode::Error, &[]), Err(RaftError::JoinError)));
}

#[test]
fn join_redirected_to_leader() {
    let data = bincode::serialize(&(4u64, "10.0.0.4:7000".to_string())).unwrap();
    match join_step(ResultCode::WrongLeader, &data) {
        Ok(JoinStep::Redirect { leader_addr }) => assert_eq!(leader_addr, "10.0.0.4:7000"),
        _ => panic!("expected a redirect"),
    }
    assert!(matches!(join_step(ResultCode::WrongLeader, &[1, 2]), Err(RaftError::Other(_))));
}

#[test]
fn join_redirect_decoding_edges() {
    let mut data = bincode::serialize(&(9u64, "h:1".to_string())).unwrap();
    assert_eq!(data.len(), 19);
    data.extend_from_slice(&[7, 7, 7]);
    match join_step(ResultCode::WrongLeader, &data) {
        Ok(JoinStep::Redirect { leader_addr }) => assert_eq!(leader_addr, "h:1"),
        _ => panic!("trailing bytes are ignored"),
    }
    let mut bad = vec![9, 0, 0, 0, 0, 0, 0, 0, 2, 0, 0, 0, 0, 0, 0, 0];
    bad.extend_from_slice(&[0xff, 0xfe]);
    assert!(matches!(join_step(ResultCode::WrongLeader, &bad), Err(RaftError::Other(_))));
    let short = vec![9, 0, 0, 0, 0, 0, 0, 0, 5, 0, 0, 0, 0, 0, 0, 0, b'a'];
    assert!(matches!(join_step(ResultCode::WrongLeader, &short), Err(RaftError::Other(_))));
}

#[test]
fn join_assigned_an_id() {
    let mut peers = HashMap::new();
    peers.insert(2u64, "10.0.0.2:7000".to_string());
    let data = bincode::serialize(&(1u64, 3u64, peers.clone())).unwrap();
    match join_step(ResultCode::Success, &data) {
        Ok(JoinStep::Assigned(a)) => {
            assert_eq!(a.leader_id, 1);
            assert_eq!(a.node_id, 3);
            assert_eq!(a.peer_addrs, peers);
        }
        _ => panic!("expected an assignment"),
    }
    assert!(matches!(join_step(ResultCode::Success, &[0]), Err(RaftError::Other(_))));
}

#[test]
fn join_request_carries_address() {
    let addr = "127.0.0.1:9000".to_string();
    let change = join_request(3, &addr).unwrap();
    assert_eq!(change.change_type, ConfChangeType::AddNode);
    assert_eq!(change.node_id, 3);
    assert_eq!(change.id, 0);
    assert_eq!(change.context, bincode::serialize(&addr).unwrap());
    let decoded: String = bincode::deserialize(&change.context).unwrap();
    assert_eq!(decoded, addr);
}

#[test]
fn leave_request_targets_receiver() {
    let change = leave_request();
    assert_eq!(change.change_type, ConfChangeType::RemoveNode);
    assert_eq!(change.node_id, 0);
    assert!(change.context.is_empty());
}

#[test]
fn proposal_outcomes() {
    assert_eq!(proposal_outcome(Some(RaftResponse::Response { data: vec![1, 2] })), Ok(vec![1, 2]));
    assert_eq!(proposal_outcome(Some(RaftResponse::Acknowledged)), Err(RaftError::Unknown));
    assert_eq!(proposal_outcome(None), Err(RaftError::Unknown));
}

#[test]
fn leave_outcomes() {
    assert_eq!(leave_outcome(Some(RaftResponse::Acknowledged)), Ok(()));
    assert_eq!(leave_outcome(Some(RaftResponse::Response { data: vec![] })), Err(RaftError::Unknown));
    assert_eq!(leave_outcome(None), Err(RaftError::Unknown));
}

#[test]
fn retries_then_gives_up() {
    assert_eq!(after_send_failure(0, 3), RetryDecision::RetryAfterPause { next_retry: 1 });
    assert_eq!(after_send_failure(1, 3), RetryDecision::RetryAfterPause { next_retry: 2 });
    assert_eq!(after_send_failure(2, 3), RetryDecision::GiveUp);
    assert_eq!(after_send_failure(0, 1), RetryDecision::GiveUp);
    assert_eq!(after_send_failure(0, 0), RetryDecision::GiveUp);
}

#[test]
fn delivery_tried_max_retries_times() {
    for max in 1..6usize {
        let mut attempts = 1;
        let mut current = 0usize;
        loop {
            match after_send_failure(current, max) {
                RetryDecision::RetryAfterPause { next_retry } => {
                    current = next_retry;
                    attempts += 1;
                }
                RetryDecision::GiveUp => break,
            }
        }
        assert_eq!(attempts, max);
    }
}
