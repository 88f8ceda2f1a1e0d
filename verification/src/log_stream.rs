//! The log pipeline: what the drain task stores of a message stream, and
//! what a replay of raw or normalised logs yields.

use vstd::prelude::*;
use crate::action::{ExecutorActionType, ExecutorActionTypeView, ExecutorConfigView};
use crate::lifecycle::{normalize_view, NormalizeTarget};
use crate::log_msg::{msg_views, LogMsg, LogMsgView};
use crate::text::clone_opt_text;

verus! {

/// What the drain task does with one message of the stream.
#[derive(Debug)]
pub enum StorageStep {
    /// Append the message to the execution's log file, as one line.
    AppendLine(LogMsg),
    /// Record the agent's session id on the coding-agent turn.
    UpdateAgentSessionId(String),
    /// Record the agent's message id on the coding-agent turn.
    UpdateAgentMessageId(String),
    /// Nothing is stored.
    Ignore,
    /// The stream is over: the task ends.
    Stop,
}

pub ghost enum StorageStepView {
    AppendLine(LogMsgView),
    UpdateAgentSessionId(Seq<char>),
    UpdateAgentMessageId(Seq<char>),
    Ignore,
    Stop,
}

impl View for StorageStep {
    type V = StorageStepView;

    open spec fn view(&self) -> StorageStepView {
        match self {
            StorageStep::AppendLine(m) => StorageStepView::AppendLine(m@),
            StorageStep::UpdateAgentSessionId(s) => StorageStepView::UpdateAgentSessionId(s@),
            StorageStep::UpdateAgentMessageId(s) => StorageStepView::UpdateAgentMessageId(s@),
            StorageStep::Ignore => StorageStepView::Ignore,
            StorageStep::Stop => StorageStepView::Stop,
        }
    }
}

/// What the drain task does with a message: raw output is appended to the
/// file, the agent's ids are recorded, the end of the stream stops the
/// task, and patches and readiness are passed over.
pub open spec fn storage_step_of(msg: LogMsgView) -> StorageStepView {
    match msg {
        LogMsgView::Stdout(_) => StorageStepView::AppendLine(msg),
        LogMsgView::Stderr(_) => StorageStepView::AppendLine(msg),
        LogMsgView::SessionId(id) => StorageStepView::UpdateAgentSessionId(id),
        LogMsgView::MessageId(id) => StorageStepView::UpdateAgentMessageId(id),
        LogMsgView::Finished => StorageStepView::Stop,
        LogMsgView::JsonPatch(_) => StorageStepView::Ignore,
        LogMsgView::Ready => StorageStepView::Ignore,
    }
}

/// The step the drain task takes for the next message of its stream.
pub fn spawn_stream_raw_logs_to_storage(msg: &LogMsg) -> (step: StorageStep)
    ensures
        step@ == storage_step_of(msg@),
{
    match msg {
        LogMsg::Stdout(_) => StorageStep::AppendLine(msg.clone()),
        LogMsg::Stderr(_) => StorageStep::AppendLine(msg.clone()),
        LogMsg::SessionId(id) => StorageStep::UpdateAgentSessionId(id.clone()),
        LogMsg::MessageId(id) => StorageStep::UpdateAgentMessageId(id.clone()),
        LogMsg::Finished => StorageStep::Stop,
        LogMsg::JsonPatch(_) => StorageStep::Ignore,
        LogMsg::Ready => StorageStep::Ignore,
    }
}

/// The messages that the drain task has appended to the log file once it
/// has run over a stream: in stream order, those that its steps append,
/// up to the step that stops it.
pub open spec fn stored_messages(stream: Seq<LogMsgView>) -> Seq<LogMsgView>
    decreases stream.len(),
{
    if stream.len() == 0 {
        Seq::empty()
    } else {
        match storage_step_of(stream[0]) {
            StorageStepView::Stop => Seq::empty(),
            StorageStepView::AppendLine(m) => seq![m] + stored_messages(stream.drop_first()),
            _ => stored_messages(stream.drop_first()),
        }
    }
}

/// The part of a stream that comes before its first end-of-stream
/// message.
pub open spec fn before_finished(stream: Seq<LogMsgView>) -> Seq<LogMsgView>
    decreases stream.len(),
{
    if stream.len() == 0 || stream[0] is Finished {
        Seq::empty()
    } else {
        seq![stream[0]] + before_finished(stream.drop_first())
    }
}

/// The raw output among some messages, in their order.
pub open spec fn raw_output(messages: Seq<LogMsgView>) -> Seq<LogMsgView> {
    messages.filter(|m: LogMsgView| m.is_output())
}

/// The patches among some messages, in their order.
pub open spec fn patches(messages: Seq<LogMsgView>) -> Seq<LogMsgView> {
    messages.filter(|m: LogMsgView| m is JsonPatch)
}

/// Whether a message of a live stream belongs to a raw replay: raw output
/// and the end of the stream do.
pub open spec fn in_raw_replay(msg: LogMsgView) -> bool {
    msg.is_output() || msg is Finished
}

/// What a subscriber of a raw replay sees of a live stream: its raw
/// output up to the first end-of-stream message, and that message if the
/// stream has one.
pub open spec fn live_raw_replay(stream: Seq<LogMsgView>) -> Seq<LogMsgView>
    decreases stream.len(),
{
    if stream.len() == 0 {
        Seq::empty()
    } else if stream[0] is Finished {
        seq![LogMsgView::Finished]
    } else if in_raw_replay(stream[0]) {
        seq![stream[0]] + live_raw_replay(stream.drop_first())
    } else {
        live_raw_replay(stream.drop_first())
    }
}

/// What a raw replay yields from the messages read back from storage:
/// their raw output, then one end-of-stream message.
pub open spec fn stored_raw_replay(stored: Seq<LogMsgView>) -> Seq<LogMsgView> {
    raw_output(stored) + seq![LogMsgView::Finished]
}

/// Whether a message of a live stream is passed on by a raw replay.
pub fn raw_replay_passes(msg: &LogMsg) -> (passes: bool)
    ensures
        passes == in_raw_replay(msg@),
{
    match msg {
        LogMsg::Stdout(_) | LogMsg::Stderr(_) | LogMsg::Finished => true,
        _ => false,
    }
}

/// Whether a message of a live stream is passed on by a normalised
/// replay: only patches are.
pub fn normalized_replay_passes(msg: &LogMsg) -> (passes: bool)
    ensures
        passes == (msg@ is JsonPatch),
{
    match msg {
        LogMsg::JsonPatch(_) => true,
        _ => false,
    }
}

/// Replays the raw logs of an execution from the messages read back from
/// storage: the raw output in stored order, followed by one synthetic
/// end-of-stream message.
pub fn stored_raw_logs(stored: &Vec<LogMsg>) -> (replay: Vec<LogMsg>)
    ensures
        msg_views(replay@) == stored_raw_replay(msg_views(stored@)),
{
    let ghost views = msg_views(stored@);
    let ghost keep = |m: LogMsgView| m.is_output();
    let mut replay: Vec<LogMsg> = Vec::new();
    let mut i: usize = 0;
    proof {
        reveal(Seq::filter);
        assert(msg_views(replay@) =~= views.take(0).filter(keep));
    }
    while i < stored.len()
        invariant
            0 <= i <= stored.len(),
            views == msg_views(stored@),
            keep == (|m: LogMsgView| m.is_output()),
            msg_views(replay@) == views.take(i as int).filter(keep),
        decreases stored.len() - i,
    {
        let ghost before = replay@;
        proof {
            reveal(Seq::filter);
            assert(views.take(i as int + 1).drop_last() =~= views.take(i as int));
        }
        match &stored[i] {
            LogMsg::Stdout(_) | LogMsg::Stderr(_) => {
                replay.push(stored[i].clone());
                proof {
                    assert(msg_views(replay@) =~= msg_views(before).push(views[i as int]));
                }
            },
            _ => {},
        }
        i = i + 1;
    }
    let ghost before = replay@;
    replay.push(LogMsg::Finished);
    proof {
        assert(views.take(stored.len() as int) =~= views);
        assert(msg_views(replay@) =~= msg_views(before) + seq![LogMsgView::Finished]);
    }
    replay
}

/// Filtering a sequence of one element keeps it or drops it.
pub proof fn lemma_filter_one<A>(x: A, keep: spec_fn(A) -> bool)
    ensures
        seq![x].filter(keep) == (if keep(x) {
            seq![x]
        } else {
            Seq::<A>::empty()
        }),
{
    reveal(Seq::filter);
    let one = seq![x];
    assert(one.drop_last() =~= Seq::<A>::empty());
    assert(one.drop_last().filter(keep) =~= Seq::<A>::empty());
    assert(one.last() == x);
    if keep(x) {
        assert(Seq::<A>::empty().push(x) =~= seq![x]);
    }
}

/// Filtering a sequence with one more element in front.
pub proof fn lemma_filter_front<A>(x: A, rest: Seq<A>, keep: spec_fn(A) -> bool)
    ensures
        (seq![x] + rest).filter(keep) == (if keep(x) {
            seq![x] + rest.filter(keep)
        } else {
            rest.filter(keep)
        }),
{
    Seq::filter_distributes_over_add(seq![x], rest, keep);
    lemma_filter_one(x, keep);
    if !keep(x) {
        assert(Seq::<A>::empty() + rest.filter(keep) =~= rest.filter(keep));
    }
}

/// Log durability: the drain task stores exactly the raw output that was
/// pushed before the end of the stream, in push order. Whatever it stores
/// is a line of standard output or standard error, so neither a patch nor
/// a readiness message ever reaches the file.
pub proof fn lemma_stored_is_output_before_finished(stream: Seq<LogMsgView>)
    ensures
        stored_messages(stream) == raw_output(before_finished(stream)),
        forall|i: int|
            0 <= i < stored_messages(stream).len() ==> (#[trigger] stored_messages(
                stream,
            )[i]).is_output(),
    decreases stream.len(),
{
    let keep = |m: LogMsgView| m.is_output();
    if stream.len() == 0 || stream[0] is Finished {
        assert(Seq::<LogMsgView>::empty().filter(keep) =~= Seq::<LogMsgView>::empty()) by {
            reveal(Seq::filter);
        }
    } else {
        let rest = stream.drop_first();
        lemma_stored_is_output_before_finished(rest);
        lemma_filter_front(stream[0], before_finished(rest), keep);
    }
}

/// Replay equivalence: once an execution has finished, a raw replay
/// yields the same messages whether it is served from the live stream or
/// from what the drain task stored of it, and ends with one end-of-stream
/// message.
pub proof fn lemma_replay_equivalence(stream: Seq<LogMsgView>)
    requires
        exists|i: int| 0 <= i < stream.len() && stream[i] is Finished,
    ensures
        live_raw_replay(stream) == stored_raw_replay(stored_messages(stream)),
        live_raw_replay(stream) == stored_messages(stream) + seq![LogMsgView::Finished],
    decreases stream.len(),
{
    let keep = |m: LogMsgView| m.is_output();
    if stream[0] is Finished {
        assert(Seq::<LogMsgView>::empty().filter(keep) =~= Seq::<LogMsgView>::empty()) by {
            reveal(Seq::filter);
        }
        assert(Seq::<LogMsgView>::empty() + seq![LogMsgView::Finished] =~= seq![
            LogMsgView::Finished,
        ]);
    } else {
        let rest = stream.drop_first();
        let i = choose|i: int| 0 <= i < stream.len() && stream[i] is Finished;
        assert(rest[i - 1] == stream[i]);
        lemma_replay_equivalence(rest);
        lemma_filter_front(stream[0], stored_messages(rest), keep);
        if stream[0].is_output() {
            let first = seq![stream[0]];
            let end = seq![LogMsgView::Finished];
            let kept = stored_messages(rest);
            assert(first + (kept + end) =~= (first + kept) + end);
            assert(first + (raw_output(kept) + end) =~= (first + raw_output(kept)) + end);
        }
    }
}

/// The messages a stored log is replayed with into a fresh store before
/// it is normalised again: raw output and patches, in stored order, then
/// the end of the stream.
pub open spec fn normalization_input(stored: Seq<LogMsgView>) -> Seq<LogMsgView> {
    stored.filter(|m: LogMsgView| m.is_output() || m is JsonPatch) + seq![LogMsgView::Finished]
}

/// Builds the history of the store that a stored log is normalised from.
pub fn normalization_history(stored: &Vec<LogMsg>) -> (history: Vec<LogMsg>)
    ensures
        msg_views(history@) == normalization_input(msg_views(stored@)),
{
    let ghost views = msg_views(stored@);
    let ghost keep = |m: LogMsgView| m.is_output() || m is JsonPatch;
    let mut history: Vec<LogMsg> = Vec::new();
    let mut i: usize = 0;
    proof {
        reveal(Seq::filter);
        assert(msg_views(history@) =~= views.take(0).filter(keep));
    }
    while i < stored.len()
        invariant
            0 <= i <= stored.len(),
            views == msg_views(stored@),
            keep == (|m: LogMsgView| m.is_output() || m is JsonPatch),
            msg_views(history@) == views.take(i as int).filter(keep),
        decreases stored.len() - i,
    {
        let ghost before = history@;
        proof {
            reveal(Seq::filter);
            assert(views.take(i as int + 1).drop_last() =~= views.take(i as int));
        }
        match &stored[i] {
            LogMsg::Stdout(_) | LogMsg::Stderr(_) | LogMsg::JsonPatch(_) => {
                history.push(stored[i].clone());
                proof {
                    assert(msg_views(history@) =~= msg_views(before).push(views[i as int]));
                }
            },
            _ => {},
        }
        i = i + 1;
    }
    let ghost before = history@;
    history.push(LogMsg::Finished);
    proof {
        assert(views.take(stored.len() as int) =~= views);
        assert(msg_views(history@) =~= msg_views(before) + seq![LogMsgView::Finished]);
    }
    history
}

/// What a normalised replay yields of some messages: their patches, in
/// order, then one end-of-stream message.
pub open spec fn normalized_replay(history: Seq<LogMsgView>) -> Seq<LogMsgView> {
    patches(history) + seq![LogMsgView::Finished]
}

/// Replays the normalised logs among some messages: the patches, in
/// order, then one end-of-stream message.
pub fn normalized_logs(history: &Vec<LogMsg>) -> (replay: Vec<LogMsg>)
    ensures
        msg_views(replay@) == normalized_replay(msg_views(history@)),
{
    let ghost views = msg_views(history@);
    let ghost keep = |m: LogMsgView| m is JsonPatch;
    let mut replay: Vec<LogMsg> = Vec::new();
    let mut i: usize = 0;
    proof {
        reveal(Seq::filter);
        assert(msg_views(replay@) =~= views.take(0).filter(keep));
    }
    while i < history.len()
        invariant
            0 <= i <= history.len(),
            views == msg_views(history@),
            keep == (|m: LogMsgView| m is JsonPatch),
            msg_views(replay@) == views.take(i as int).filter(keep),
        decreases history.len() - i,
    {
        let ghost before = replay@;
        proof {
            reveal(Seq::filter);
            assert(views.take(i as int + 1).drop_last() =~= views.take(i as int));
        }
        match &history[i] {
            LogMsg::JsonPatch(_) => {
                replay.push(history[i].clone());
                proof {
                    assert(msg_views(replay@) =~= msg_views(before).push(views[i as int]));
                }
            },
            _ => {},
        }
        i = i + 1;
    }
    let ghost before = replay@;
    replay.push(LogMsg::Finished);
    proof {
        assert(views.take(history.len() as int) =~= views);
        assert(msg_views(replay@) =~= msg_views(before) + seq![LogMsgView::Finished]);
    }
    replay
}

/// The executor and working directory a stored log is normalised with: an
/// agent request uses its own working directory, a review the workspace's
/// current directory, and a script's log cannot be normalised.
pub open spec fn replay_normalization_of(typ: ExecutorActionTypeView) -> Option<
    (ExecutorConfigView, Option<Seq<char>>),
> {
    match typ {
        ExecutorActionTypeView::ScriptRequest(_) => None,
        ExecutorActionTypeView::CodingAgentInitialRequest(r) => Some(
            (r.executor_config, r.working_dir),
        ),
        ExecutorActionTypeView::CodingAgentFollowUpRequest(r) => Some(
            (r.executor_config, r.working_dir),
        ),
        ExecutorActionTypeView::ReviewRequest(r) => Some((r.executor_config, None)),
    }
}

/// Where a stored log of the given request is normalised.
pub fn replay_normalization_target(typ: &ExecutorActionType) -> (target: Option<NormalizeTarget>)
    ensures
        normalize_view(target) == replay_normalization_of(typ@),
{
    match typ {
        ExecutorActionType::ScriptRequest(_) => None,
        ExecutorActionType::CodingAgentInitialRequest(r) => Some(
            NormalizeTarget {
                executor_config: r.executor_config.clone(),
                working_dir: clone_opt_text(&r.working_dir),
            },
        ),
        ExecutorActionType::CodingAgentFollowUpRequest(r) => Some(
            NormalizeTarget {
                executor_config: r.executor_config.clone(),
                working_dir: clone_opt_text(&r.working_dir),
            },
        ),
        ExecutorActionType::ReviewRequest(r) => Some(
            NormalizeTarget { executor_config: r.executor_config.clone(), working_dir: None },
        ),
    }
}

/// The message a line of a log file parsed to; none for a line that is
/// malformed.
pub open spec fn parsed_view(line: Option<LogMsg>) -> Option<LogMsgView> {
    match line {
        Some(m) => Some(m@),
        None => None,
    }
}

/// Collects the messages of a log file from its lines as they parsed. A
/// malformed line is passed over, and the messages of all other lines are
/// kept in file order.
pub fn parse_log_jsonl_lossy(lines: Vec<Option<LogMsg>>) -> (messages: Vec<LogMsg>)
    ensures
        msg_views(messages@) == lines@.filter_map(|l: Option<LogMsg>| parsed_view(l)),
{
    let ghost pick = |l: Option<LogMsg>| parsed_view(l);
    let mut messages: Vec<LogMsg> = Vec::new();
    let mut i: usize = 0;
    proof {
        assert(msg_views(messages@) =~= lines@.take(0).filter_map(pick));
    }
    while i < lines.len()
        invariant
            0 <= i <= lines.len(),
            pick == (|l: Option<LogMsg>| parsed_view(l)),
            msg_views(messages@) == lines@.take(i as int).filter_map(pick),
        decreases lines.len() - i,
    {
        proof {
            lines@.lemma_filter_map_take_succ(pick, i as int);
        }
        match &lines[i] {
            Some(msg) => {
                let ghost before = messages@;
                messages.push(msg.clone());
                proof {
                    assert(msg_views(messages@) =~= msg_views(before) + seq![msg@]);
                }
            },
            None => {},
        }
        i = i + 1;
    }
    proof {
        assert(lines@.take(lines.len() as int) =~= lines@);
    }
    messages
}

/// Chooses the raw log of an execution between what its log file gave and
/// what the legacy table gave: the file's messages where there are any,
/// else the table's.
pub fn load_raw_log_messages(from_file: Option<Vec<LogMsg>>, from_table: Option<Vec<LogMsg>>) -> (
    messages: Option<Vec<LogMsg>>)
    ensures
        messages == (match from_file {
            Some(m) => if m@.len() > 0 {
                from_file
            } else {
                from_table
            },
            None => from_table,
        }),
{
    match from_file {
        Some(m) => {
            if m.len() > 0 {
                Some(m)
            } else {
                from_table
            }
        },
        None => from_table,
    }
}

} // verus!
