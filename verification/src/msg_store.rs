//! The message store of one execution, as its history.
//!
//! A store keeps every message pushed to it, in push order. A subscriber
//! is handed the history and then every later push, until the end of the
//! stream has gone by.

use vstd::prelude::*;
use crate::log_msg::{msg_views, LogMsg, LogMsgView};
use crate::log_stream::{
    in_raw_replay, lemma_filter_front, lemma_filter_one, lemma_replay_equivalence,
    live_raw_replay, normalization_history, normalization_input, normalized_logs,
    normalized_replay, raw_replay_passes, stored_messages, stored_raw_logs, stored_raw_replay,
};

verus! {

/// The history of the messages pushed for one execution.
#[derive(Debug)]
pub struct MsgStore {
    history: Vec<LogMsg>,
}

/// What a subscriber is handed of a history: its messages up to the first
/// end-of-stream message, that message included.
pub open spec fn subscribed(history: Seq<LogMsgView>) -> Seq<LogMsgView>
    decreases history.len(),
{
    if history.len() == 0 {
        Seq::empty()
    } else if history[0] is Finished {
        seq![LogMsgView::Finished]
    } else {
        seq![history[0]] + subscribed(history.drop_first())
    }
}

impl View for MsgStore {
    type V = Seq<LogMsgView>;

    closed spec fn view(&self) -> Seq<LogMsgView> {
        msg_views(self.history@)
    }
}

impl MsgStore {
    /// A store without messages.
    pub fn new() -> (store: Self)
        ensures
            store@ == Seq::<LogMsgView>::empty(),
    {
        let store = MsgStore { history: Vec::new() };
        proof {
            assert(msg_views(store.history@) =~= Seq::<LogMsgView>::empty());
        }
        store
    }

    /// Appends a message to the history.
    pub fn push(&mut self, msg: LogMsg)
        ensures
            final(self)@ == old(self)@.push(msg@),
    {
        let ghost before = self.history@;
        self.history.push(msg);
        proof {
            assert(msg_views(self.history@) =~= msg_views(before).push(msg@));
        }
    }

    /// Appends the end-of-stream message to the history.
    pub fn push_finished(&mut self)
        ensures
            final(self)@ == old(self)@.push(LogMsgView::Finished),
    {
        self.push(LogMsg::Finished);
    }

    /// A store that holds the given messages as its history.
    pub fn from_history(history: Vec<LogMsg>) -> (store: Self)
        ensures
            store@ == msg_views(history@),
    {
        MsgStore { history }
    }

    /// The whole history, in push order.
    pub fn history(&self) -> (history: &Vec<LogMsg>)
        ensures
            msg_views(history@) == self@,
    {
        &self.history
    }

    /// How many messages the store holds.
    pub fn len(&self) -> (len: usize)
        ensures
            len == self@.len(),
    {
        self.history.len()
    }

    /// What a subscriber is handed of the history so far: its messages in
    /// push order, up to the first end-of-stream message, that message
    /// included.
    pub fn history_plus_stream(&self) -> (seen: Vec<LogMsg>)
        ensures
            msg_views(seen@) == subscribed(self@),
    {
        let ghost views = msg_views(self.history@);
        let mut seen: Vec<LogMsg> = Vec::new();
        let mut i: usize = 0;
        proof {
            assert(views.skip(0) =~= views);
            assert(msg_views(seen@) + subscribed(views) =~= subscribed(views));
        }
        while i < self.history.len()
            invariant
                0 <= i <= self.history.len(),
                views == msg_views(self.history@),
                msg_views(seen@) + subscribed(views.skip(i as int)) == subscribed(views),
            decreases self.history.len() - i,
        {
            let ghost before = seen@;
            let ghost rest = views.skip(i as int);
            proof {
                assert(rest.drop_first() =~= views.skip(i as int + 1));
                assert(rest[0] == views[i as int]);
            }
            seen.push(self.history[i].clone());
            proof {
                assert(msg_views(seen@) =~= msg_views(before).push(views[i as int]));
            }
            match &self.history[i] {
                LogMsg::Finished => {
                    proof {
                        assert(msg_views(before).push(views[i as int]) =~= msg_views(before)
                            + seq![LogMsgView::Finished]);
                    }
                    return seen;
                },
                _ => {
                    proof {
                        assert(msg_views(before).push(views[i as int]) + subscribed(
                            rest.drop_first(),
                        ) =~= msg_views(before) + (seq![rest[0]] + subscribed(rest.drop_first())));
                    }
                },
            }
            i = i + 1;
        }
        proof {
            assert(views.skip(self.history.len() as int) =~= Seq::<LogMsgView>::empty());
            assert(msg_views(seen@) + Seq::<LogMsgView>::empty() =~= msg_views(seen@));
        }
        seen
    }
}

/// A raw replay of a live store passes on, of what a subscriber is
/// handed, the raw output and the end of the stream.
pub proof fn lemma_live_raw_replay_filters_subscription(history: Seq<LogMsgView>)
    ensures
        live_raw_replay(history) == subscribed(history).filter(|m: LogMsgView| in_raw_replay(m)),
    decreases history.len(),
{
    let keep = |m: LogMsgView| in_raw_replay(m);
    if history.len() == 0 {
        assert(Seq::<LogMsgView>::empty().filter(keep) =~= Seq::<LogMsgView>::empty()) by {
            reveal(Seq::filter);
        }
    } else if history[0] is Finished {
        lemma_filter_one(LogMsgView::Finished, keep);
    } else {
        lemma_live_raw_replay_filters_subscription(history.drop_first());
        lemma_filter_front(history[0], subscribed(history.drop_first()), keep);
    }
}

/// The views of an optional list of messages.
pub open spec fn replay_view(replay: Option<Vec<LogMsg>>) -> Option<Seq<LogMsgView>> {
    match replay {
        Some(messages) => Some(msg_views(messages@)),
        None => None,
    }
}

/// What a raw replay yields: from the live store where the execution has
/// one, else from the messages read back from storage, and nothing where
/// there are neither.
pub open spec fn raw_replay_of(
    live: Option<Seq<LogMsgView>>,
    stored: Option<Seq<LogMsgView>>,
) -> Option<Seq<LogMsgView>> {
    match live {
        Some(history) => Some(live_raw_replay(history)),
        None => match stored {
            Some(messages) => Some(stored_raw_replay(messages)),
            None => None,
        },
    }
}

/// What a normalised replay yields: the patches a subscriber of the live
/// store is handed, where the execution has one, else the patches of the
/// store that its stored log was normalised into; either way one
/// end-of-stream message follows. Nothing where there are neither.
pub open spec fn normalized_replay_of(
    live: Option<Seq<LogMsgView>>,
    rebuilt: Option<Seq<LogMsgView>>,
) -> Option<Seq<LogMsgView>> {
    match live {
        Some(history) => Some(normalized_replay(subscribed(history))),
        None => match rebuilt {
            Some(history) => Some(normalized_replay(history)),
            None => None,
        },
    }
}

/// The model of an optional store.
pub open spec fn store_view(store: Option<&MsgStore>) -> Option<Seq<LogMsgView>> {
    match store {
        Some(s) => Some(s@),
        None => None,
    }
}

/// The model of an optional list of messages.
pub open spec fn stored_view(stored: Option<&Vec<LogMsg>>) -> Option<Seq<LogMsgView>> {
    match stored {
        Some(messages) => Some(msg_views(messages@)),
        None => None,
    }
}

/// The two sources of a raw replay agree: once an execution has finished,
/// serving its raw log from the live store yields what serving it from
/// the messages that the drain task stored yields.
pub proof fn lemma_raw_replay_sources_agree(
    history: Seq<LogMsgView>,
    stored: Option<Seq<LogMsgView>>,
)
    requires
        exists|i: int| 0 <= i < history.len() && history[i] is Finished,
    ensures
        raw_replay_of(Some(history), stored) == raw_replay_of(
            None,
            Some(stored_messages(history)),
        ),
{
    lemma_replay_equivalence(history);
}

/// Serves the raw log of an execution: what the live store has so far,
/// where the execution has one, and else the stored messages.
pub fn stream_raw_logs(live: Option<&MsgStore>, stored: Option<&Vec<LogMsg>>) -> (replay: Option<
    Vec<LogMsg>,
>)
    ensures
        replay_view(replay) == raw_replay_of(store_view(live), stored_view(stored)),
{
    match live {
        Some(store) => {
            let seen = store.history_plus_stream();
            let ghost views = msg_views(seen@);
            let ghost keep = |m: LogMsgView| in_raw_replay(m);
            let mut replay: Vec<LogMsg> = Vec::new();
            let mut i: usize = 0;
            proof {
                reveal(Seq::filter);
                assert(msg_views(replay@) =~= views.take(0).filter(keep));
            }
            while i < seen.len()
                invariant
                    0 <= i <= seen.len(),
                    views == msg_views(seen@),
                    keep == (|m: LogMsgView| in_raw_replay(m)),
                    msg_views(replay@) == views.take(i as int).filter(keep),
                decreases seen.len() - i,
            {
                let ghost before = replay@;
                proof {
                    reveal(Seq::filter);
                    assert(views.take(i as int + 1).drop_last() =~= views.take(i as int));
                }
                if raw_replay_passes(&seen[i]) {
                    replay.push(seen[i].clone());
                    proof {
                        assert(msg_views(replay@) =~= msg_views(before).push(views[i as int]));
                    }
                }
                i = i + 1;
            }
            proof {
                assert(views.take(seen.len() as int) =~= views);
                lemma_live_raw_replay_filters_subscription(store@);
            }
            Some(replay)
        },
        None => match stored {
            Some(messages) => Some(stored_raw_logs(messages)),
            None => None,
        },
    }
}

/// The store a stored log is normalised into: it holds the log's raw
/// output and patches, in stored order, and is closed.
pub fn normalization_store(stored: &Vec<LogMsg>) -> (store: MsgStore)
    ensures
        store@ == normalization_input(msg_views(stored@)),
{
    MsgStore::from_history(normalization_history(stored))
}

/// Serves the normalised log of an execution: the patches the live store
/// has so far, where the execution has one, and else the patches of the
/// store that its stored log was normalised into.
pub fn stream_normalized_logs(live: Option<&MsgStore>, rebuilt: Option<&MsgStore>) -> (replay:
    Option<Vec<LogMsg>>)
    ensures
        replay_view(replay) == normalized_replay_of(store_view(live), store_view(rebuilt)),
{
    match live {
        Some(store) => {
            let seen = store.history_plus_stream();
            Some(normalized_logs(&seen))
        },
        None => match rebuilt {
            Some(store) => Some(normalized_logs(store.history())),
            None => None,
        },
    }
}

} // verus!
