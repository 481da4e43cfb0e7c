//! Laws of the branch life cycle, stated over the transition relations that
//! the spawn and event-handling contracts establish.

use vstd::prelude::*;

use crate::channel::branch_result_entry;
use crate::channel::history_records_branch_result;
use crate::channel::spawn_branch_ok;
use crate::channel::BranchSpawn;
use crate::channel::ChannelState;
use crate::history::Message;

verus! {

/// Facts carried along a chain of successful branch spawns: the id source
/// advances by one per spawn, the active count grows by one per spawn, and
/// the limit never changes.
proof fn lemma_spawn_chain_facts(
    states: Seq<ChannelState>,
    spawns: Seq<BranchSpawn>,
    descriptions: Seq<Seq<char>>,
    k: int,
)
    requires
        states.len() == spawns.len() + 1,
        descriptions.len() == spawns.len(),
        forall|j: int|
            0 <= j < spawns.len() ==> spawn_branch_ok(
                states[j],
                states[j + 1],
                #[trigger] spawns[j],
                descriptions[j],
            ),
        0 <= k < states.len(),
    ensures
        states[k].next_branch_id == states[0].next_branch_id + k,
        states[k].active_branches@.len() == states[0].active_branches@.len() + k,
        states[k].max_concurrent_branches == states[0].max_concurrent_branches,
    decreases k,
{
    if k > 0 {
        lemma_spawn_chain_facts(states, spawns, descriptions, k - 1);
        assert(spawn_branch_ok(states[k - 1], states[k], spawns[k - 1], descriptions[k - 1]));
    }
}

/// Law of branch admission: along any chain of successful spawn calls with
/// none completing in between, every handed-out id is distinct from every
/// other, and no chain from an empty active map can be longer than the
/// configured limit — the call after the limit-th cannot succeed.
pub proof fn lemma_branch_admission(
    states: Seq<ChannelState>,
    spawns: Seq<BranchSpawn>,
    descriptions: Seq<Seq<char>>,
)
    requires
        states.len() == spawns.len() + 1,
        descriptions.len() == spawns.len(),
        forall|j: int|
            0 <= j < spawns.len() ==> spawn_branch_ok(
                states[j],
                states[j + 1],
                #[trigger] spawns[j],
                descriptions[j],
            ),
    ensures
        forall|i: int, j: int| 0 <= i < j < spawns.len() ==> spawns[i].id != spawns[j].id,
        states[0].active_branches@.len() == 0 ==> spawns.len()
            <= states[0].max_concurrent_branches,
{
    assert forall|i: int, j: int|
        0 <= i < j < spawns.len() implies spawns[i].id != spawns[j].id by {
        lemma_spawn_chain_facts(states, spawns, descriptions, i);
        lemma_spawn_chain_facts(states, spawns, descriptions, j);
        assert(spawn_branch_ok(states[i], states[i + 1], spawns[i], descriptions[i]));
        assert(spawn_branch_ok(states[j], states[j + 1], spawns[j], descriptions[j]));
        assert(spawns[i].id.0 == states[i].next_branch_id);
        assert(spawns[j].id.0 == states[j].next_branch_id);
    }
    if states[0].active_branches@.len() == 0 && spawns.len() > 0 {
        let last = spawns.len() - 1;
        lemma_spawn_chain_facts(states, spawns, descriptions, last);
        assert(spawn_branch_ok(states[last], states[last + 1], spawns[last], descriptions[last]));
    }
}

/// Law: once the limit is reached, no spawn can succeed — there is no
/// post-state and no spawn record that stand in the success relation.
pub proof fn lemma_branch_limit_rejects(
    state: ChannelState,
    post: ChannelState,
    spawn: BranchSpawn,
    description: Seq<char>,
)
    requires
        state.active_branches@.len() >= state.max_concurrent_branches,
    ensures
        !spawn_branch_ok(state, post, spawn, description),
{
}

/// Law of branch isolation: a branch deliberates over the history exactly
/// as it stood at spawn time. However the live history grows while the
/// branch runs, the snapshot the branch sees is the spawn-time history, and
/// incorporating its conclusion appends exactly one entry to the grown live
/// history — the spawn-time snapshot plus one appended
/// "[Branch result]" entry is what the branch contributes, insensitive to
/// the concurrent growth.
pub proof fn lemma_branch_isolation(
    pre: ChannelState,
    post: ChannelState,
    spawn: BranchSpawn,
    description: Seq<char>,
    appended: Seq<Message>,
    live: Seq<Message>,
    after: Seq<Message>,
    conclusion: Seq<char>,
)
    requires
        spawn_branch_ok(pre, post, spawn, description),
        live == post.history@ + appended,
        history_records_branch_result(live, after, conclusion),
    ensures
        spawn.history_snapshot@ == pre.history@,
        after == pre.history@ + appended + seq![after.last()],
        after.last().text@ == branch_result_entry(conclusion),
        after.len() == pre.history@.len() + appended.len() + 1,
{
    assert(after =~= live + seq![after.last()]);
    assert(after =~= pre.history@ + appended + seq![after.last()]);
}

} // verus!
