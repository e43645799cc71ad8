//! The replicated state machine of the example node: a map from keys to strings.
use vstd::prelude::*;
use std::collections::HashMap;
use crate::codec::{decode_map, decoded_map, encode_map, encode_string, encoded_string};
use crate::error::{RaftError, RaftResult};

verus! {

broadcast use vstd::std_specs::hash::group_hash_axioms;

/// A command of the state machine.
#[derive(Clone, Debug, PartialEq, Eq)]
pub enum Message {
    /// Store `value` under `key`.
    Insert { key: u64, value: String },
}

/// The state machine: what each key holds.
pub struct HashStore {
    map: HashMap<u64, String>,
}

impl View for HashStore {
    type V = Map<u64, String>;

    closed spec fn view(&self) -> Map<u64, String> {
        self.map@
    }
}

impl HashStore {
    /// An empty store.
    pub fn new() -> (s: Self)
        ensures
            s@ == Map::<u64, String>::empty(),
    {
        HashStore { map: HashMap::new() }
    }

    /// Applies a committed command; answers with the encoding of the value stored.
    pub fn apply(&mut self, message: Message) -> (r: RaftResult<Vec<u8>>)
        ensures
            match message {
                Message::Insert { key, value } => {
                    &&& final(self)@ == old(self)@.insert(key, value)
                    &&& r is Ok
                    &&& r->Ok_0@ == encoded_string(value@)
                },
            },
    {
        match message {
            Message::Insert { key, value } => {
                self.map.insert(key, value.clone());
                match encode_string(&value) {
                    Ok(bytes) => Ok(bytes),
                    Err(e) => Err(RaftError::Other(e)),
                }
            },
        }
    }

    /// The encoding of the whole map, which decodes back to it.
    pub fn snapshot(&self) -> (r: RaftResult<Vec<u8>>)
        ensures
            r is Ok,
            decoded_map(r->Ok_0@) == Some(self@),
    {
        match encode_map(&self.map) {
            Ok(bytes) => Ok(bytes),
            Err(e) => Err(RaftError::Other(e)),
        }
    }

    /// Replaces the map with the one that `snapshot` encodes.
    pub fn restore(&mut self, snapshot: &[u8]) -> (r: RaftResult<()>)
        requires
            decoded_map(snapshot@) is Some,
        ensures
            r is Ok,
            Some(final(self)@) == decoded_map(snapshot@),
    {
        match decode_map(snapshot) {
            Ok(map) => {
                self.map = map;
                Ok(())
            },
            Err(e) => Err(RaftError::Other(e)),
        }
    }

    /// Restores from `snapshot` if it encodes a map, and says whether it did; otherwise
    /// the store is left as it was.
    pub fn try_restore(&mut self, snapshot: &[u8]) -> (restored: bool)
        ensures
            restored == decoded_map(snapshot@) is Some,
            restored ==> Some(final(self)@) == decoded_map(snapshot@),
            !restored ==> final(self)@ == old(self)@,
    {
        match decode_map(snapshot) {
            Ok(_) => {
                let _ = self.restore(snapshot);
                true
            },
            Err(_) => false,
        }
    }

    /// What `key` holds, if anything.
    pub fn get(&self, key: u64) -> (r: Option<String>)
        ensures
            r is Some <==> self@.contains_key(key),
            r is Some ==> r->Some_0 == self@[key],
    {
        match self.map.get(&key) {
            Some(v) => Some(v.clone()),
            None => None,
        }
    }
}

/// What an insert stores is read back, and no other key changes.
pub proof fn insert_then_get(m: Map<u64, String>, key: u64, value: String, other: u64)
    requires
        other != key,
    ensures
        m.insert(key, value).contains_key(key),
        m.insert(key, value)[key] == value,
        m.insert(key, value).contains_key(other) == m.contains_key(other),
        m.contains_key(other) ==> m.insert(key, value)[other] == m[other],
{
}

} // verus!
