//! Channel: the top-level orchestrator of one user-facing conversation.
//!
//! The channel owns the canonical conversation history and the maps of
//! currently-active branches and workers. Its runtime is a single loop over
//! two input sources — inbound messages and process events — and every
//! decision that loop takes is a function in this module: branch and worker
//! admission, event filtering and incorporation, and the retrigger that
//! resumes the conversation after an asynchronous completion. The runtime
//! performs the outside work (task spawning, queue sends) that the decisions
//! call for.

use vstd::prelude::*;

use crate::compaction::CompactionConfig;
use crate::events::spec_event_is_for_channel;
use crate::events::event_is_for_channel;
use crate::events::InboundMessage;
use crate::events::MessageContent;
use crate::events::Metadata;
use crate::events::ProcessEvent;
use crate::history::clone_history;
use crate::history::Message;
use crate::history::Role;
use crate::ids::BranchId;
use crate::ids::ChannelId;
use crate::ids::WorkerId;
use crate::outside::now_unix_millis;
use crate::outside::uuid_v4_string;
use crate::status::branch_ids;
use crate::status::worker_ids;
use crate::status::BranchEntry;
use crate::status::StatusBlock;
use crate::status::WorkerEntry;
use crate::text::dec_rep;
use crate::text::u64_to_string;

verus! {

/// Per-channel configuration.
#[derive(Clone, Copy, Debug, PartialEq, Eq, Structural)]
pub struct ChannelConfig {
    /// Maximum concurrently running branches.
    pub max_concurrent_branches: usize,
    /// Maximum tool-call turns per completion-engine call.
    pub max_turns: usize,
    /// Context window size in tokens.
    pub context_window: usize,
    /// Compaction thresholds.
    pub compaction: CompactionConfig,
}

impl Default for ChannelConfig {
    fn default() -> (r: Self)
        ensures
            r.max_concurrent_branches == 5,
            r.max_turns == 5,
            r.context_window == 128000,
            r.compaction == (CompactionConfig {
                background_threshold: 800u32,
                aggressive_threshold: 850u32,
                emergency_threshold: 950u32,
            }),
            r.compaction.wf(),
    {
        ChannelConfig {
            max_concurrent_branches: 5,
            max_turns: 5,
            context_window: 128000,
            compaction: CompactionConfig::default(),
        }
    }
}

/// Errors surfaced synchronously to a caller; everything else the channel
/// folds into logs or the conversation itself.
#[derive(Debug)]
pub enum AgentError {
    /// The per-channel branch admission limit was hit; recoverable, handed
    /// back to the calling tool as ordinary failure text.
    BranchLimitReached { channel_id: String, max: usize },
    /// Registering the per-turn tool set failed; fatal for the current turn
    /// only.
    ToolRegistrationFailed { detail: String },
}

impl AgentError {
    /// The error as user-facing text.
    pub fn message(&self) -> (r: String)
        ensures
            (match self {
                AgentError::BranchLimitReached { channel_id, .. } => r@
                    == "branch limit reached on channel "@ + channel_id@,
                AgentError::ToolRegistrationFailed { detail } => r@
                    == "failed to register channel tools: "@ + detail@,
            }),
    {
        match self {
            AgentError::BranchLimitReached { channel_id, .. } => {
                let mut out = String::from_str("branch limit reached on channel ");
                out.append(channel_id.as_str());
                out
            },
            AgentError::ToolRegistrationFailed { detail } => {
                let mut out = String::from_str("failed to register channel tools: ");
                out.append(detail.as_str());
                out
            },
        }
    }
}

/// The state shared between the channel loop and the tools a turn exposes:
/// conversation history, the active branch and worker maps, the status
/// projection, and the static per-channel configuration.
#[derive(Debug)]
pub struct ChannelState {
    pub channel_id: ChannelId,
    pub history: Vec<Message>,
    pub active_branches: Vec<BranchId>,
    pub active_workers: Vec<WorkerId>,
    pub status_block: StatusBlock,
    pub identity_context: String,
    pub branch_system_prompt: String,
    pub worker_system_prompt: String,
    pub max_concurrent_branches: usize,
    /// Source of fresh branch ids; every active branch id is below it.
    pub next_branch_id: u64,
    /// Source of fresh worker ids; every active worker id is below it.
    pub next_worker_id: u64,
}

impl ChannelState {
    /// The channel-state invariant: active ids are pairwise distinct and
    /// below their id source, and the status block lists exactly the active
    /// branches and workers, in the same order — an entry is added when a
    /// process is spawned and removed by that process's terminal event, so
    /// the projection never grows unbounded.
    pub open spec fn wf(self) -> bool {
        &&& forall|i: int, j: int|
            0 <= i < j < self.active_branches@.len() ==> self.active_branches@[i]
                != self.active_branches@[j]
        &&& forall|i: int|
            0 <= i < self.active_branches@.len() ==> (#[trigger] self.active_branches@[i]).0
                < self.next_branch_id
        &&& forall|i: int, j: int|
            0 <= i < j < self.active_workers@.len() ==> self.active_workers@[i]
                != self.active_workers@[j]
        &&& forall|i: int|
            0 <= i < self.active_workers@.len() ==> (#[trigger] self.active_workers@[i]).0
                < self.next_worker_id
        &&& branch_ids(self.status_block.branches@) == self.active_branches@
        &&& worker_ids(self.status_block.workers@) == self.active_workers@
    }

    /// Whether a branch id is currently active.
    pub open spec fn has_active_branch(self, id: BranchId) -> bool {
        self.active_branches@.contains(id)
    }

    /// Whether a worker id is currently active.
    pub open spec fn has_active_worker(self, id: WorkerId) -> bool {
        self.active_workers@.contains(id)
    }
}

/// What the runtime needs to start a spawned branch as an independent task:
/// a fresh id, the deliberation prompt, the branch system prompt, and a deep
/// snapshot of the history at spawn time.
#[derive(Debug)]
pub struct BranchSpawn {
    pub id: BranchId,
    pub prompt: String,
    pub system_prompt: String,
    /// The history as of the spawn; later channel mutations do not reach a
    /// running branch.
    pub history_snapshot: Vec<Message>,
}

/// What the runtime needs to start a spawned worker: a fresh id, the task,
/// the worker system prompt and the interactive flag. Deliberately no
/// history: a worker's context is isolated.
#[derive(Debug)]
pub struct WorkerSpawn {
    pub id: WorkerId,
    pub task: String,
    pub system_prompt: String,
    pub interactive: bool,
    pub skill: Option<String>,
}

/// The successful branch-spawn transition, exactly as
/// spawn_branch_from_state ensures it: admission under the limit, a fresh
/// id from the id source, a deep history snapshot, and nothing else of the
/// state touched.
pub open spec fn spawn_branch_ok(
    pre: ChannelState,
    post: ChannelState,
    spawn: BranchSpawn,
    description: Seq<char>,
) -> bool {
    &&& pre.active_branches@.len() < pre.max_concurrent_branches
    &&& spawn.id == BranchId(pre.next_branch_id)
    &&& !pre.has_active_branch(spawn.id)
    &&& spawn.prompt@ == description
    &&& spawn.system_prompt == pre.branch_system_prompt
    &&& spawn.history_snapshot@ == pre.history@
    &&& post.active_branches@ == pre.active_branches@.push(spawn.id)
    &&& post.has_active_branch(spawn.id)
    &&& post.next_branch_id == pre.next_branch_id + 1
    &&& post == (ChannelState {
        active_branches: post.active_branches,
        status_block: post.status_block,
        next_branch_id: post.next_branch_id,
        ..pre
    })
    &&& post.status_block == (StatusBlock {
        branches: post.status_block.branches,
        ..pre.status_block
    })
    &&& post.status_block.branches@.len() == pre.status_block.branches@.len() + 1
    &&& post.status_block.branches@.drop_last() == pre.status_block.branches@
    &&& post.status_block.branches@.last().id == spawn.id
    &&& post.status_block.branches@.last().label@ == "thinking..."@
}

/// The successful worker-spawn transition, exactly as
/// spawn_worker_from_state ensures it.
pub open spec fn spawn_worker_ok(
    pre: ChannelState,
    post: ChannelState,
    spawn: WorkerSpawn,
    task: Seq<char>,
    interactive: bool,
    skill: Option<Seq<char>>,
) -> bool {
    &&& spawn.id == WorkerId(pre.next_worker_id)
    &&& !pre.has_active_worker(spawn.id)
    &&& spawn.task@ == task
    &&& spawn.system_prompt == pre.worker_system_prompt
    &&& spawn.interactive == interactive
    &&& (match (spawn.skill, skill) {
        (Some(s), Some(given)) => s@ == given,
        (None, None) => true,
        _ => false,
    })
    &&& post.active_workers@ == pre.active_workers@.push(spawn.id)
    &&& post.has_active_worker(spawn.id)
    &&& post.next_worker_id == pre.next_worker_id + 1
    &&& post == (ChannelState {
        active_workers: post.active_workers,
        status_block: post.status_block,
        next_worker_id: post.next_worker_id,
        ..pre
    })
    &&& post.status_block == (StatusBlock {
        workers: post.status_block.workers,
        ..pre.status_block
    })
    &&& post.status_block.workers@.len() == pre.status_block.workers@.len() + 1
    &&& post.status_block.workers@.drop_last() == pre.status_block.workers@
    &&& post.status_block.workers@.last().id == spawn.id
    &&& post.status_block.workers@.last().label@ == task
    &&& post.status_block.workers@.last().interactive == interactive
}

/// How a history grows when a branch result is incorporated: exactly one
/// appended user-role entry carrying the conclusion.
pub open spec fn history_records_branch_result(
    pre: Seq<Message>,
    post: Seq<Message>,
    conclusion: Seq<char>,
) -> bool {
    &&& post.len() == pre.len() + 1
    &&& post.drop_last() == pre
    &&& post.last().role == Role::User
    &&& post.last().text@ == branch_result_entry(conclusion)
}

/// How a history grows when a worker result is incorporated.
pub open spec fn history_records_worker_result(
    pre: Seq<Message>,
    post: Seq<Message>,
    result: Seq<char>,
) -> bool {
    &&& post.len() == pre.len() + 1
    &&& post.drop_last() == pre
    &&& post.last().role == Role::User
    &&& post.last().text@ == worker_complete_entry(result)
}

/// Admit and record a new branch against a channel's state.
///
/// With the active-branch count at or over the configured limit the spawn is
/// rejected with the channel id and the limit, and the state is untouched.
/// Otherwise a fresh id — distinct from every active branch — is recorded,
/// the history is deep-copied for the branch, and a "thinking..." entry is
/// added to the status block.
pub fn spawn_branch_from_state(state: &mut ChannelState, description: &str) -> (r: Result<
    BranchSpawn,
    AgentError,
>)
    requires
        old(state).wf(),
        old(state).next_branch_id < u64::MAX,
    ensures
        final(state).wf(),
        old(state).active_branches@.len() >= old(state).max_concurrent_branches ==> ({
            &&& r matches Err(AgentError::BranchLimitReached { channel_id, max }) && channel_id@
                == dec_rep(old(state).channel_id.0 as nat) && max == old(
                state,
            ).max_concurrent_branches
            &&& *final(state) == *old(state)
        }),
        old(state).active_branches@.len() < old(state).max_concurrent_branches ==> (
        r matches Ok(spawn) && spawn_branch_ok(*old(state), *final(state), spawn, description@)),
{
    if state.active_branches.len() >= state.max_concurrent_branches {
        return Err(AgentError::BranchLimitReached {
            channel_id: u64_to_string(state.channel_id.0),
            max: state.max_concurrent_branches,
        });
    }
    let id = BranchId(state.next_branch_id);
    proof {
        if old(state).has_active_branch(id) {
            let i = choose|i: int|
                0 <= i < old(state).active_branches@.len() && old(state).active_branches@[i] == id;
            assert(old(state).active_branches@[i].0 < old(state).next_branch_id);
        }
    }
    state.next_branch_id = state.next_branch_id + 1;
    let snapshot = clone_history(&state.history);
    state.active_branches.push(id);
    state.status_block.add_branch(id, "thinking...");
    proof {
        assert(state.active_branches@[state.active_branches@.len() - 1] == id);
        assert(state.active_branches@.contains(id));
        assert(branch_ids(state.status_block.branches@) =~= state.active_branches@);
        assert forall|i: int, j: int|
            0 <= i < j < state.active_branches@.len() implies state.active_branches@[i]
            != state.active_branches@[j] by {
            if j == state.active_branches@.len() - 1 {
                assert(state.active_branches@[i] == old(state).active_branches@[i]);
                assert(old(state).active_branches@[i].0 < old(state).next_branch_id);
            }
        }
    }
    Ok(BranchSpawn {
        id,
        prompt: String::from_str(description),
        system_prompt: state.branch_system_prompt.clone(),
        history_snapshot: snapshot,
    })
}

/// Admit and record a new worker against a channel's state.
///
/// Worker spawning is never limit-checked: a fresh id is recorded in the
/// active map, a status entry is added, and the runtime gets an isolated
/// task description — no conversation history. The spawn always succeeds.
pub fn spawn_worker_from_state(
    state: &mut ChannelState,
    task: &str,
    interactive: bool,
    skill: Option<&str>,
) -> (r: Result<WorkerSpawn, AgentError>)
    requires
        old(state).wf(),
        old(state).next_worker_id < u64::MAX,
    ensures
        final(state).wf(),
        r matches Ok(spawn) && spawn_worker_ok(
            *old(state),
            *final(state),
            spawn,
            task@,
            interactive,
            (match skill {
                Some(given) => Some(given@),
                None => None,
            }),
        ),
{
    let id = WorkerId(state.next_worker_id);
    proof {
        if old(state).has_active_worker(id) {
            let i = choose|i: int|
                0 <= i < old(state).active_workers@.len() && old(state).active_workers@[i] == id;
            assert(old(state).active_workers@[i].0 < old(state).next_worker_id);
        }
    }
    state.next_worker_id = state.next_worker_id + 1;
    state.active_workers.push(id);
    state.status_block.add_worker(id, task, interactive);
    proof {
        assert(state.active_workers@[state.active_workers@.len() - 1] == id);
        assert(state.active_workers@.contains(id));
        assert(worker_ids(state.status_block.workers@) =~= state.active_workers@);
        assert forall|i: int, j: int|
            0 <= i < j < state.active_workers@.len() implies state.active_workers@[i]
            != state.active_workers@[j] by {
            if j == state.active_workers@.len() - 1 {
                assert(state.active_workers@[i] == old(state).active_workers@[i]);
                assert(old(state).active_workers@[i].0 < old(state).next_worker_id);
            }
        }
    }
    let skill_owned = match skill {
        Some(s) => Some(String::from_str(s)),
        None => None,
    };
    Ok(WorkerSpawn {
        id,
        task: String::from_str(task),
        system_prompt: state.worker_system_prompt.clone(),
        interactive,
        skill: skill_owned,
    })
}

/// Remove one id from an active-id list, keeping the order of the rest.
fn remove_id_branch(ids: &mut Vec<BranchId>, id: BranchId)
    ensures
        final(ids)@ == old(ids)@.filter(|b: BranchId| b != id),
{
    broadcast use vstd::seq_lib::group_filter_ensures;

    let ghost pred = |b: BranchId| b != id;
    let n = ids.len();
    let mut kept: Vec<BranchId> = Vec::new();
    let mut i: usize = 0;
    proof {
        reveal_with_fuel(Seq::<BranchId>::filter, 2);
        assert(ids@.subrange(0, 0).filter(pred) =~= Seq::<BranchId>::empty());
    }
    while i < n
        invariant
            0 <= i <= n,
            n == ids@.len(),
            pred == (|b: BranchId| b != id),
            kept@ == ids@.subrange(0, i as int).filter(pred),
        decreases n - i,
    {
        let ghost prefix = ids@.subrange(0, i as int);
        proof {
            assert(ids@.subrange(0, i as int + 1) =~= prefix.push(ids@[i as int]));
            prefix.lemma_filter_push(ids@[i as int], pred);
        }
        let b = ids[i];
        if b.0 != id.0 {
            kept.push(b);
        }
        proof {
            assert(kept@ =~= ids@.subrange(0, i as int + 1).filter(pred));
        }
        i = i + 1;
    }
    proof {
        assert(ids@.subrange(0, n as int) =~= ids@);
    }
    *ids = kept;
}

/// Remove one id from an active-worker list, keeping the order of the rest.
fn remove_id_worker(ids: &mut Vec<WorkerId>, id: WorkerId)
    ensures
        final(ids)@ == old(ids)@.filter(|w: WorkerId| w != id),
{
    broadcast use vstd::seq_lib::group_filter_ensures;

    let ghost pred = |w: WorkerId| w != id;
    let n = ids.len();
    let mut kept: Vec<WorkerId> = Vec::new();
    let mut i: usize = 0;
    proof {
        reveal_with_fuel(Seq::<WorkerId>::filter, 2);
        assert(ids@.subrange(0, 0).filter(pred) =~= Seq::<WorkerId>::empty());
    }
    while i < n
        invariant
            0 <= i <= n,
            n == ids@.len(),
            pred == (|w: WorkerId| w != id),
            kept@ == ids@.subrange(0, i as int).filter(pred),
        decreases n - i,
    {
        let ghost prefix = ids@.subrange(0, i as int);
        proof {
            assert(ids@.subrange(0, i as int + 1) =~= prefix.push(ids@[i as int]));
            prefix.lemma_filter_push(ids@[i as int], pred);
        }
        let w = ids[i];
        if w.0 != id.0 {
            kept.push(w);
        }
        proof {
            assert(kept@ =~= ids@.subrange(0, i as int + 1).filter(pred));
        }
        i = i + 1;
    }
    proof {
        assert(ids@.subrange(0, n as int) =~= ids@);
    }
    *ids = kept;
}

/// The history entry recording a branch's conclusion.
pub open spec fn branch_result_entry(conclusion: Seq<char>) -> Seq<char> {
    "[Branch result]: "@ + conclusion
}

/// The history entry recording a worker's result.
pub open spec fn worker_complete_entry(result: Seq<char>) -> Seq<char> {
    "[Worker completed]: "@ + result
}

/// The fixed instructive text of a retrigger message.
pub open spec fn retrigger_text() -> Seq<char> {
    "[System: a background process has completed. Check your history and status block for the result, then respond to the user.]"@
}


/// Every element of a filtered sequence is an element of the original.
proof fn lemma_filter_membership<A>(s: Seq<A>, pred: spec_fn(A) -> bool)
    ensures
        forall|i: int|
            0 <= i < s.filter(pred).len() ==> s.contains(#[trigger] s.filter(pred)[i]),
    decreases s.len(),
{
    broadcast use vstd::seq_lib::group_filter_ensures;

    if s.len() > 0 {
        let d = s.drop_last();
        let l = s.last();
        lemma_filter_membership(d, pred);
        assert(s =~= d.push(l));
        d.lemma_filter_push(l, pred);
        assert forall|i: int|
            0 <= i < s.filter(pred).len() implies s.contains(#[trigger] s.filter(pred)[i]) by {
            if pred(l) && i == s.filter(pred).len() - 1 {
                assert(s.filter(pred)[i] == l);
                assert(s[s.len() - 1] == l);
            } else {
                assert(s.filter(pred)[i] == d.filter(pred)[i]);
                assert(d.contains(d.filter(pred)[i]));
                let j = choose|j: int| 0 <= j < d.len() && d[j] == d.filter(pred)[i];
                assert(s[j] == d.filter(pred)[i]);
            }
        }
    }
}

/// Filtering a sequence of pairwise-distinct elements keeps them pairwise
/// distinct.
proof fn lemma_filter_distinct<A>(s: Seq<A>, pred: spec_fn(A) -> bool)
    requires
        forall|i: int, j: int| 0 <= i < j < s.len() ==> s[i] != s[j],
    ensures
        forall|i: int, j: int|
            0 <= i < j < s.filter(pred).len() ==> s.filter(pred)[i] != s.filter(pred)[j],
    decreases s.len(),
{
    broadcast use vstd::seq_lib::group_filter_ensures;

    if s.len() > 0 {
        let d = s.drop_last();
        let l = s.last();
        assert(forall|i: int, j: int| 0 <= i < j < d.len() ==> d[i] != d[j]);
        lemma_filter_distinct(d, pred);
        lemma_filter_membership(d, pred);
        assert(s =~= d.push(l));
        d.lemma_filter_push(l, pred);
        assert forall|i: int, j: int|
            0 <= i < j < s.filter(pred).len() implies s.filter(pred)[i] != s.filter(pred)[j] by {
            if pred(l) && j == s.filter(pred).len() - 1 {
                assert(s.filter(pred)[j] == l);
                assert(s.filter(pred)[i] == d.filter(pred)[i]);
                assert(d.contains(d.filter(pred)[i]));
                let k = choose|k: int| 0 <= k < d.len() && d[k] == d.filter(pred)[i];
                assert(s[k] == d[k]);
                assert(s[s.len() - 1] == l);
            } else {
                assert(s.filter(pred)[i] == d.filter(pred)[i]);
                assert(s.filter(pred)[j] == d.filter(pred)[j]);
            }
        }
    }
}

/// Dropping the entries of one branch id from a status block drops exactly
/// that id from the projected id sequence.
proof fn lemma_branch_ids_filter(entries: Seq<BranchEntry>, id: BranchId)
    ensures
        branch_ids(entries.filter(|e: BranchEntry| e.id != id)) == branch_ids(entries).filter(
            |b: BranchId| b != id,
        ),
    decreases entries.len(),
{
    broadcast use vstd::seq_lib::group_filter_ensures;

    let pe = |e: BranchEntry| e.id != id;
    let pb = |b: BranchId| b != id;
    if entries.len() == 0 {
        assert(entries.filter(pe) =~= entries);
        assert(branch_ids(entries) =~= Seq::<BranchId>::empty());
        assert(branch_ids(entries).filter(pb) =~= Seq::<BranchId>::empty());
        assert(branch_ids(entries.filter(pe)) =~= Seq::<BranchId>::empty());
    } else {
        let d = entries.drop_last();
        let l = entries.last();
        lemma_branch_ids_filter(d, id);
        assert(entries =~= d.push(l));
        d.lemma_filter_push(l, pe);
        assert(branch_ids(d.push(l)) =~= branch_ids(d).push(l.id));
        branch_ids(d).lemma_filter_push(l.id, pb);
        if pe(l) {
            assert(branch_ids(d.filter(pe).push(l)) =~= branch_ids(d.filter(pe)).push(l.id));
            assert(branch_ids(entries.filter(pe)) =~= branch_ids(entries).filter(pb));
        } else {
            assert(branch_ids(entries.filter(pe)) =~= branch_ids(entries).filter(pb));
        }
    }
}

/// Dropping the entries of one worker id from a status block drops exactly
/// that id from the projected id sequence.
proof fn lemma_worker_ids_filter(entries: Seq<WorkerEntry>, id: WorkerId)
    ensures
        worker_ids(entries.filter(|e: WorkerEntry| e.id != id)) == worker_ids(entries).filter(
            |w: WorkerId| w != id,
        ),
    decreases entries.len(),
{
    broadcast use vstd::seq_lib::group_filter_ensures;

    let pe = |e: WorkerEntry| e.id != id;
    let pw = |w: WorkerId| w != id;
    if entries.len() == 0 {
        assert(entries.filter(pe) =~= entries);
        assert(worker_ids(entries) =~= Seq::<WorkerId>::empty());
        assert(worker_ids(entries).filter(pw) =~= Seq::<WorkerId>::empty());
        assert(worker_ids(entries.filter(pe)) =~= Seq::<WorkerId>::empty());
    } else {
        let d = entries.drop_last();
        let l = entries.last();
        lemma_worker_ids_filter(d, id);
        assert(entries =~= d.push(l));
        d.lemma_filter_push(l, pe);
        assert(worker_ids(d.push(l)) =~= worker_ids(d).push(l.id));
        worker_ids(d).lemma_filter_push(l.id, pw);
        if pe(l) {
            assert(worker_ids(d.filter(pe).push(l)) =~= worker_ids(d.filter(pe)).push(l.id));
            assert(worker_ids(entries.filter(pe)) =~= worker_ids(entries).filter(pw));
        } else {
            assert(worker_ids(entries.filter(pe)) =~= worker_ids(entries).filter(pw));
        }
    }
}

/// What a retrigger message looks like: synthesized, system-sourced, with
/// the fixed instructive text, aimed at the channel's own conversation.
pub open spec fn is_retrigger_for(m: InboundMessage, conversation_id: Seq<char>) -> bool {
    &&& m.source@ == "system"@
    &&& m.sender_id@ == "system"@
    &&& m.conversation_id@ == conversation_id
    &&& m.agent_id is None
    &&& m.content matches MessageContent::Text(t) && t@ == retrigger_text()
    &&& m.metadata.entries@.len() == 0
    &&& m.id@.len() == 36
}

/// Synthesize the message a channel sends to itself to resume a turn after
/// an asynchronous sub-process completion.
pub fn make_retrigger_message(conversation_id: &String) -> (m: InboundMessage)
    ensures
        is_retrigger_for(m, conversation_id@),
{
    InboundMessage {
        id: uuid_v4_string(),
        source: String::from_str("system"),
        conversation_id: conversation_id.clone(),
        sender_id: String::from_str("system"),
        agent_id: None,
        content: MessageContent::Text(
            String::from_str(
                "[System: a background process has completed. Check your history and status block for the result, then respond to the user.]",
            ),
        ),
        timestamp: now_unix_millis(),
        metadata: Metadata::new(),
    }
}

/// The top-level orchestrator of one user-facing conversation.
#[derive(Debug)]
pub struct Channel {
    pub id: ChannelId,
    pub title: Option<String>,
    pub config: ChannelConfig,
    /// The agent instance this channel belongs to, stamped on its events.
    pub agent_id: String,
    pub state: ChannelState,
    /// The channel system prompt.
    pub system_prompt: String,
    /// Conversation id, recorded from the first message, for synthetic
    /// retrigger messages.
    pub conversation_id: Option<String>,
    /// Conversation context (platform, channel name, server), captured from
    /// the first non-synthetic message.
    pub conversation_context: Option<String>,
}

impl Channel {
    /// A channel is well formed when its shared state is, and the state
    /// carries the channel's own id and limit.
    pub open spec fn wf(self) -> bool {
        &&& self.state.wf()
        &&& self.state.channel_id == self.id
        &&& self.state.max_concurrent_branches == self.config.max_concurrent_branches
    }

    /// Create a new channel: empty history, no active sub-processes, an
    /// empty status block, and nothing yet known of the conversation.
    pub fn new(
        id: ChannelId,
        agent_id: &str,
        config: ChannelConfig,
        system_prompt: &str,
        identity_context: &str,
        branch_system_prompt: &str,
        worker_system_prompt: &str,
    ) -> (c: Channel)
        ensures
            c.wf(),
            c.id == id,
            c.agent_id@ == agent_id@,
            c.config == config,
            c.title is None,
            c.system_prompt@ == system_prompt@,
            c.conversation_id is None,
            c.conversation_context is None,
            c.state.channel_id == id,
            c.state.history@.len() == 0,
            c.state.active_branches@.len() == 0,
            c.state.active_workers@.len() == 0,
            c.state.status_block.branches@.len() == 0,
            c.state.status_block.workers@.len() == 0,
            c.state.status_block.last_tool is None,
            c.state.status_block.last_status is None,
            c.state.identity_context@ == identity_context@,
            c.state.branch_system_prompt@ == branch_system_prompt@,
            c.state.worker_system_prompt@ == worker_system_prompt@,
            c.state.max_concurrent_branches == config.max_concurrent_branches,
            c.state.next_branch_id == 0,
            c.state.next_worker_id == 0,
    {
        let state = ChannelState {
            channel_id: id,
            history: Vec::new(),
            active_branches: Vec::new(),
            active_workers: Vec::new(),
            status_block: StatusBlock::new(),
            identity_context: String::from_str(identity_context),
            branch_system_prompt: String::from_str(branch_system_prompt),
            worker_system_prompt: String::from_str(worker_system_prompt),
            max_concurrent_branches: config.max_concurrent_branches,
            next_branch_id: 0,
            next_worker_id: 0,
        };
        proof {
            assert(branch_ids(state.status_block.branches@) =~= state.active_branches@);
            assert(worker_ids(state.status_block.workers@) =~= state.active_workers@);
        }
        Channel {
            id,
            title: None,
            config,
            agent_id: String::from_str(agent_id),
            state,
            system_prompt: String::from_str(system_prompt),
            conversation_id: None,
            conversation_context: None,
        }
    }

    /// The current status block as flat text.
    pub fn get_status(&self) -> (r: String)
        ensures
            r@ == self.state.status_block.spec_render(),
    {
        self.state.status_block.render()
    }

    /// Handle a process event: branch results, worker completions, status
    /// updates.
    ///
    /// An event scoped to a different channel is a complete no-op. A
    /// matching event first updates the status block; a terminal branch or
    /// worker event then removes the process from its active map, appends
    /// its result to the history (for workers, only when `notify` is set),
    /// and — once a conversation id is known — hands back the synthetic
    /// retrigger message for the runtime to enqueue, best effort.
    pub fn handle_event(&mut self, event: &ProcessEvent) -> (retrigger: Option<InboundMessage>)
        requires
            old(self).wf(),
        ensures
            final(self).wf(),
            final(self).id == old(self).id,
            final(self).title == old(self).title,
            final(self).config == old(self).config,
            final(self).agent_id == old(self).agent_id,
            final(self).system_prompt == old(self).system_prompt,
            final(self).conversation_id == old(self).conversation_id,
            final(self).conversation_context == old(self).conversation_context,
            !spec_event_is_for_channel(*event, old(self).id) ==> *final(self) == *old(self)
                && retrigger is None,
            spec_event_is_for_channel(*event, old(self).id) ==> match *event {
                ProcessEvent::BranchResult { branch_id, conclusion, .. } => {
                    &&& final(self).state.active_branches@ == old(
                        self,
                    ).state.active_branches@.filter(|b: BranchId| b != branch_id)
                    &&& !final(self).state.has_active_branch(branch_id)
                    &&& history_records_branch_result(
                        old(self).state.history@,
                        final(self).state.history@,
                        conclusion@,
                    )
                    &&& final(self).state == (ChannelState {
                        history: final(self).state.history,
                        active_branches: final(self).state.active_branches,
                        status_block: final(self).state.status_block,
                        ..old(self).state
                    })
                    &&& final(self).state.status_block == (StatusBlock {
                        branches: final(self).state.status_block.branches,
                        ..old(self).state.status_block
                    })
                    &&& final(self).state.status_block.branches@ == old(
                        self,
                    ).state.status_block.branches@.filter(|e: BranchEntry| e.id != branch_id)
                    &&& final(self).state.active_workers == old(self).state.active_workers
                    &&& (match old(self).conversation_id {
                        Some(cid) => retrigger matches Some(m) && is_retrigger_for(m, cid@),
                        None => retrigger is None,
                    })
                },
                ProcessEvent::WorkerComplete { worker_id, notify, result, .. } => {
                    &&& final(self).state.active_workers@ == old(
                        self,
                    ).state.active_workers@.filter(|w: WorkerId| w != worker_id)
                    &&& !final(self).state.has_active_worker(worker_id)
                    &&& final(self).state == (ChannelState {
                        history: final(self).state.history,
                        active_workers: final(self).state.active_workers,
                        status_block: final(self).state.status_block,
                        ..old(self).state
                    })
                    &&& final(self).state.status_block == (StatusBlock {
                        workers: final(self).state.status_block.workers,
                        ..old(self).state.status_block
                    })
                    &&& final(self).state.status_block.workers@ == old(
                        self,
                    ).state.status_block.workers@.filter(|e: WorkerEntry| e.id != worker_id)
                    &&& final(self).state.active_branches == old(self).state.active_branches
                    &&& (notify ==> ({
                        &&& history_records_worker_result(
                            old(self).state.history@,
                            final(self).state.history@,
                            result@,
                        )
                        &&& (match old(self).conversation_id {
                            Some(cid) => retrigger matches Some(m) && is_retrigger_for(m, cid@),
                            None => retrigger is None,
                        })
                    }))
                    &&& (!notify ==> final(self).state.history == old(self).state.history
                        && retrigger is None)
                },
                ProcessEvent::WorkerStatus { .. } => *final(self) == *old(self) && retrigger
                    is None,
                ProcessEvent::StatusUpdate { status, .. } => {
                    &&& final(self).state == (ChannelState {
                        status_block: final(self).state.status_block,
                        ..old(self).state
                    })
                    &&& final(self).state.status_block == (StatusBlock {
                        last_status: Some(status),
                        ..old(self).state.status_block
                    })
                    &&& retrigger is None
                },
                ProcessEvent::ToolStarted { tool_name, .. } => {
                    &&& final(self).state == (ChannelState {
                        status_block: final(self).state.status_block,
                        ..old(self).state
                    })
                    &&& final(self).state.status_block == (StatusBlock {
                        last_tool: Some(tool_name),
                        ..old(self).state.status_block
                    })
                    &&& retrigger is None
                },
                ProcessEvent::ToolCompleted { tool_name, .. } => {
                    &&& final(self).state == (ChannelState {
                        status_block: final(self).state.status_block,
                        ..old(self).state
                    })
                    &&& final(self).state.status_block == (StatusBlock {
                        last_tool: Some(tool_name),
                        ..old(self).state.status_block
                    })
                    &&& retrigger is None
                },
            },
    {
        if !event_is_for_channel(event, &self.id) {
            return None;
        }
        self.state.status_block.update(event);
        let mut should_retrigger = false;
        match event {
            ProcessEvent::BranchResult { branch_id, conclusion, .. } => {
                remove_id_branch(&mut self.state.active_branches, *branch_id);
                proof {
                    lemma_branch_ids_filter(old(self).state.status_block.branches@, *branch_id);
                    lemma_filter_distinct(
                        old(self).state.active_branches@,
                        |b: BranchId| b != *branch_id,
                    );
                    lemma_filter_membership(
                        old(self).state.active_branches@,
                        |b: BranchId| b != *branch_id,
                    );
                    broadcast use vstd::seq_lib::group_filter_ensures;

                    if self.state.active_branches@.contains(*branch_id) {
                        let i = choose|i: int|
                            0 <= i < self.state.active_branches@.len()
                                && self.state.active_branches@[i] == *branch_id;
                    }
                }
                let mut text = String::from_str("[Branch result]: ");
                text.append(conclusion.as_str());
                let ghost history0 = self.state.history@;
                self.state.history.push(Message { role: Role::User, text });
                proof {
                    assert(self.state.history@.drop_last() =~= history0);
                }
                should_retrigger = true;
            },
            ProcessEvent::WorkerComplete { worker_id, result, notify, .. } => {
                remove_id_worker(&mut self.state.active_workers, *worker_id);
                proof {
                    lemma_worker_ids_filter(old(self).state.status_block.workers@, *worker_id);
                    lemma_filter_distinct(
                        old(self).state.active_workers@,
                        |w: WorkerId| w != *worker_id,
                    );
                    lemma_filter_membership(
                        old(self).state.active_workers@,
                        |w: WorkerId| w != *worker_id,
                    );
                    broadcast use vstd::seq_lib::group_filter_ensures;

                }
                if *notify {
                    let mut text = String::from_str("[Worker completed]: ");
                    text.append(result.as_str());
                    let ghost history0 = self.state.history@;
                    self.state.history.push(Message { role: Role::User, text });
                    proof {
                        assert(self.state.history@.drop_last() =~= history0);
                    }
                    should_retrigger = true;
                }
            },
            _ => {},
        }
        if should_retrigger {
            match &self.conversation_id {
                Some(cid) => {
                    return Some(make_retrigger_message(cid));
                },
                None => {},
            }
        }
        None
    }
}

} // verus!