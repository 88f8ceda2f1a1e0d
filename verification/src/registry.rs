//! The registry of live message stores, keyed by execution.
//!
//! An execution has an entry from the moment its child is spawned until
//! the child has ended and its log is drained.

use std::collections::HashMap;
use vstd::prelude::*;
use crate::log_msg::{LogMsg, LogMsgView};
use crate::msg_store::{
    raw_replay_of, replay_view, store_view, stored_view, stream_raw_logs, MsgStore,
};

verus! {

/// The live message stores, by execution id.
pub struct MsgStores {
    stores: HashMap<u128, MsgStore>,
}

impl View for MsgStores {
    type V = Map<u128, Seq<LogMsgView>>;

    closed spec fn view(&self) -> Map<u128, Seq<LogMsgView>> {
        self.stores@.map_values(|s: MsgStore| s@)
    }
}

impl MsgStores {
    /// A registry without entries.
    pub fn new() -> (registry: Self)
        ensures
            registry@ == Map::<u128, Seq<LogMsgView>>::empty(),
    {
        let registry = MsgStores { stores: HashMap::new() };
        proof {
            assert(registry@ =~= Map::<u128, Seq<LogMsgView>>::empty());
        }
        registry
    }

    /// Registers the store of an execution, in place of any store it had.
    pub fn insert(&mut self, execution_id: u128, store: MsgStore)
        ensures
            final(self)@ == old(self)@.insert(execution_id, store@),
    {
        broadcast use vstd::std_specs::hash::group_hash_axioms;

        self.stores.insert(execution_id, store);
        proof {
            assert(self@ =~= old(self)@.insert(execution_id, store@));
        }
    }

    /// Takes the store of an execution out of the registry.
    pub fn remove(&mut self, execution_id: u128) -> (store: Option<MsgStore>)
        ensures
            final(self)@ == old(self)@.remove(execution_id),
            match store {
                Some(taken) => old(self)@.contains_key(execution_id) && taken@ == old(
                    self,
                )@[execution_id],
                None => !old(self)@.contains_key(execution_id),
            },
    {
        broadcast use vstd::std_specs::hash::group_hash_axioms;

        let store = self.stores.remove(&execution_id);
        proof {
            assert(self@ =~= old(self)@.remove(execution_id));
        }
        store
    }

    /// The live store of an execution, if it has one.
    pub fn get_msg_store_by_id(&self, execution_id: u128) -> (store: Option<&MsgStore>)
        ensures
            store_view(store) == (if self@.contains_key(execution_id) {
                Some(self@[execution_id])
            } else {
                None
            }),
    {
        broadcast use vstd::std_specs::hash::group_hash_axioms;

        self.stores.get(&execution_id)
    }

    /// Serves the raw log of an execution: from its live store where it
    /// has one, else from the messages read back from storage.
    pub fn stream_raw_logs(&self, execution_id: u128, stored: Option<&Vec<LogMsg>>) -> (replay:
        Option<Vec<LogMsg>>)
        ensures
            replay_view(replay) == raw_replay_of(
                if self@.contains_key(execution_id) {
                    Some(self@[execution_id])
                } else {
                    None
                },
                stored_view(stored),
            ),
    {
        stream_raw_logs(self.get_msg_store_by_id(execution_id), stored)
    }
}

} // verus!
