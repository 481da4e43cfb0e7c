//! StatusBlock: a small mutable projection of what is currently running —
//! active branches, active workers, the most recent tool activity — rebuilt
//! incrementally from bus events and rendered to flat text for injection
//! into every outbound prompt.
//!
//! It is an aggregate, not a log: entries for completed branches and workers
//! are removed when the channel removes them from its active maps, so the
//! block never grows without bound.

use vstd::prelude::*;

use crate::events::ProcessEvent;
use crate::ids::BranchId;
use crate::ids::WorkerId;
use crate::text::dec_rep;
use crate::text::u64_to_string;

verus! {

/// One active branch shown in the status block.
#[derive(Debug)]
pub struct BranchEntry {
    pub id: BranchId,
    pub label: String,
}

/// One active worker shown in the status block.
#[derive(Debug)]
pub struct WorkerEntry {
    pub id: WorkerId,
    pub label: String,
    pub interactive: bool,
}

/// Live textual projection of currently-active sub-processes and recent
/// tool activity.
#[derive(Debug)]
pub struct StatusBlock {
    pub branches: Vec<BranchEntry>,
    pub workers: Vec<WorkerEntry>,
    pub last_tool: Option<String>,
    pub last_status: Option<String>,
}

/// The ids of the branches listed in a sequence of entries.
pub open spec fn branch_ids(s: Seq<BranchEntry>) -> Seq<BranchId> {
    s.map_values(|e: BranchEntry| e.id)
}

/// The ids of the workers listed in a sequence of entries.
pub open spec fn worker_ids(s: Seq<WorkerEntry>) -> Seq<WorkerId> {
    s.map_values(|e: WorkerEntry| e.id)
}

/// The rendered line for one active branch.
pub open spec fn branch_line(e: BranchEntry) -> Seq<char> {
    "- branch "@ + dec_rep(e.id.0 as nat) + ": "@ + e.label@ + "\n"@
}

/// The rendered line for one active worker.
pub open spec fn worker_line(e: WorkerEntry) -> Seq<char> {
    "- worker "@ + dec_rep(e.id.0 as nat) + ": "@ + e.label@ + "\n"@
}

/// The rendered lines for a sequence of branch entries, in order.
pub open spec fn branch_lines(s: Seq<BranchEntry>) -> Seq<char>
    decreases s.len(),
{
    if s.len() == 0 {
        Seq::empty()
    } else {
        branch_lines(s.drop_last()) + branch_line(s.last())
    }
}

/// The rendered lines for a sequence of worker entries, in order.
pub open spec fn worker_lines(s: Seq<WorkerEntry>) -> Seq<char>
    decreases s.len(),
{
    if s.len() == 0 {
        Seq::empty()
    } else {
        worker_lines(s.drop_last()) + worker_line(s.last())
    }
}

/// The rendered line for the most recent tool activity, if any.
pub open spec fn tool_line(t: Option<String>) -> Seq<char> {
    match t {
        Some(name) => "Last tool: "@ + name@ + "\n"@,
        None => Seq::empty(),
    }
}

/// The rendered line for the most recent status update, if any.
pub open spec fn status_line(t: Option<String>) -> Seq<char> {
    match t {
        Some(status) => "Status: "@ + status@ + "\n"@,
        None => Seq::empty(),
    }
}

impl StatusBlock {
    /// What render() produces: branch lines, worker lines, then the most
    /// recent tool activity and status update.
    pub open spec fn spec_render(self) -> Seq<char> {
        branch_lines(self.branches@) + worker_lines(self.workers@) + tool_line(self.last_tool)
            + status_line(self.last_status)
    }

    /// Whether a branch with this id is listed.
    pub open spec fn has_branch(self, id: BranchId) -> bool {
        branch_ids(self.branches@).contains(id)
    }

    /// Whether a worker with this id is listed.
    pub open spec fn has_worker(self, id: WorkerId) -> bool {
        worker_ids(self.workers@).contains(id)
    }

    /// An empty status block.
    pub fn new() -> (r: StatusBlock)
        ensures
            r.branches@.len() == 0,
            r.workers@.len() == 0,
            r.last_tool is None,
            r.last_status is None,
    {
        StatusBlock { branches: Vec::new(), workers: Vec::new(), last_tool: None, last_status: None }
    }

    /// List a newly spawned branch.
    pub fn add_branch(&mut self, id: BranchId, label: &str)
        ensures
            final(self).branches@.len() == old(self).branches@.len() + 1,
            final(self).branches@.last().id == id,
            final(self).branches@.last().label@ == label@,
            final(self).branches@.drop_last() == old(self).branches@,
            final(self).workers == old(self).workers,
            final(self).last_tool == old(self).last_tool,
            final(self).last_status == old(self).last_status,
    {
        self.branches.push(BranchEntry { id, label: String::from_str(label) });
        proof {
            assert(self.branches@.drop_last() =~= old(self).branches@);
        }
    }

    /// List a newly spawned worker.
    pub fn add_worker(&mut self, id: WorkerId, label: &str, interactive: bool)
        ensures
            final(self).workers@.len() == old(self).workers@.len() + 1,
            final(self).workers@.last().id == id,
            final(self).workers@.last().label@ == label@,
            final(self).workers@.last().interactive == interactive,
            final(self).workers@.drop_last() == old(self).workers@,
            final(self).branches == old(self).branches,
            final(self).last_tool == old(self).last_tool,
            final(self).last_status == old(self).last_status,
    {
        self.workers.push(WorkerEntry { id, label: String::from_str(label), interactive });
        proof {
            assert(self.workers@.drop_last() =~= old(self).workers@);
        }
    }

    /// Drop every entry for this branch id.
    pub fn remove_branch(&mut self, id: BranchId)
        ensures
            final(self).branches@ == old(self).branches@.filter(|e: BranchEntry| e.id != id),
            !final(self).has_branch(id),
            final(self).workers == old(self).workers,
            final(self).last_tool == old(self).last_tool,
            final(self).last_status == old(self).last_status,
    {
        broadcast use vstd::seq_lib::group_filter_ensures;

        let ghost pred = |e: BranchEntry| e.id != id;
        let n = self.branches.len();
        let mut kept: Vec<BranchEntry> = Vec::new();
        let mut i: usize = 0;
        proof {
            reveal_with_fuel(Seq::<BranchEntry>::filter, 2);
            assert(self.branches@.subrange(0, 0).filter(pred) =~= Seq::<BranchEntry>::empty());
        }
        while i < n
            invariant
                0 <= i <= n,
                n == self.branches@.len(),
                pred == (|e: BranchEntry| e.id != id),
                kept@ == self.branches@.subrange(0, i as int).filter(pred),
            decreases n - i,
        {
            let ghost prefix = self.branches@.subrange(0, i as int);
            proof {
                assert(self.branches@.subrange(0, i as int + 1) =~= prefix.push(
                    self.branches@[i as int],
                ));
                prefix.lemma_filter_push(self.branches@[i as int], pred);
            }
            let e = &self.branches[i];
            if e.id.0 != id.0 {
                let entry = BranchEntry { id: e.id, label: e.label.clone() };
                assert(entry == self.branches@[i as int]);
                kept.push(entry);
            }
            proof {
                assert(kept@ =~= self.branches@.subrange(0, i as int + 1).filter(pred));
            }
            i = i + 1;
        }
        proof {
            assert(self.branches@.subrange(0, n as int) =~= self.branches@);
        }
        self.branches = kept;
        proof {
            assert forall|j: int| 0 <= j < branch_ids(self.branches@).len() implies branch_ids(
                self.branches@,
            )[j] != id by {
                assert(pred(self.branches@[j]));
            }
        }
    }

    /// Drop every entry for this worker id.
    pub fn remove_worker(&mut self, id: WorkerId)
        ensures
            final(self).workers@ == old(self).workers@.filter(|e: WorkerEntry| e.id != id),
            !final(self).has_worker(id),
            final(self).branches == old(self).branches,
            final(self).last_tool == old(self).last_tool,
            final(self).last_status == old(self).last_status,
    {
        broadcast use vstd::seq_lib::group_filter_ensures;

        let ghost pred = |e: WorkerEntry| e.id != id;
        let n = self.workers.len();
        let mut kept: Vec<WorkerEntry> = Vec::new();
        let mut i: usize = 0;
        proof {
            reveal_with_fuel(Seq::<WorkerEntry>::filter, 2);
            assert(self.workers@.subrange(0, 0).filter(pred) =~= Seq::<WorkerEntry>::empty());
        }
        while i < n
            invariant
                0 <= i <= n,
                n == self.workers@.len(),
                pred == (|e: WorkerEntry| e.id != id),
                kept@ == self.workers@.subrange(0, i as int).filter(pred),
            decreases n - i,
        {
            let ghost prefix = self.workers@.subrange(0, i as int);
            proof {
                assert(self.workers@.subrange(0, i as int + 1) =~= prefix.push(
                    self.workers@[i as int],
                ));
                prefix.lemma_filter_push(self.workers@[i as int], pred);
            }
            let e = &self.workers[i];
            if e.id.0 != id.0 {
                let entry = WorkerEntry {
                    id: e.id,
                    label: e.label.clone(),
                    interactive: e.interactive,
                };
                assert(entry == self.workers@[i as int]);
                kept.push(entry);
            }
            proof {
                assert(kept@ =~= self.workers@.subrange(0, i as int + 1).filter(pred));
            }
            i = i + 1;
        }
        proof {
            assert(self.workers@.subrange(0, n as int) =~= self.workers@);
        }
        self.workers = kept;
        proof {
            assert forall|j: int| 0 <= j < worker_ids(self.workers@).len() implies worker_ids(
                self.workers@,
            )[j] != id by {
                assert(pred(self.workers@[j]));
            }
        }
    }

    /// Fold one bus event into the projection: tool activity and status
    /// updates overwrite the most recent entry of their kind; terminal
    /// branch and worker events drop the corresponding active entry.
    pub fn update(&mut self, event: &ProcessEvent)
        ensures
            match *event {
                ProcessEvent::ToolStarted { tool_name, .. } => *final(self) == (StatusBlock {
                    last_tool: Some(tool_name),
                    ..*old(self)
                }),
                ProcessEvent::ToolCompleted { tool_name, .. } => *final(self) == (StatusBlock {
                    last_tool: Some(tool_name),
                    ..*old(self)
                }),
                ProcessEvent::StatusUpdate { status, .. } => *final(self) == (StatusBlock {
                    last_status: Some(status),
                    ..*old(self)
                }),
                ProcessEvent::BranchResult { branch_id, .. } => *final(self) == (StatusBlock {
                    branches: final(self).branches,
                    ..*old(self)
                }) && final(self).branches@ == old(self).branches@.filter(
                    |e: BranchEntry| e.id != branch_id,
                ),
                ProcessEvent::WorkerComplete { worker_id, .. } => *final(self) == (StatusBlock {
                    workers: final(self).workers,
                    ..*old(self)
                }) && final(self).workers@ == old(self).workers@.filter(
                    |e: WorkerEntry| e.id != worker_id,
                ),
                ProcessEvent::WorkerStatus { .. } => *final(self) == *old(self),
            },
    {
        match event {
            ProcessEvent::ToolStarted { tool_name, .. } => {
                self.last_tool = Some(tool_name.clone());
            },
            ProcessEvent::ToolCompleted { tool_name, .. } => {
                self.last_tool = Some(tool_name.clone());
            },
            ProcessEvent::StatusUpdate { status, .. } => {
                self.last_status = Some(status.clone());
            },
            ProcessEvent::BranchResult { branch_id, .. } => {
                self.remove_branch(*branch_id);
            },
            ProcessEvent::WorkerComplete { worker_id, .. } => {
                self.remove_worker(*worker_id);
            },
            ProcessEvent::WorkerStatus { .. } => {},
        }
    }

    /// Render the projection to deterministic flat text: an idempotent read
    /// with no side effects, cheap enough to call on every turn.
    pub fn render(&self) -> (r: String)
        ensures
            r@ == self.spec_render(),
    {
        let mut out = String::new();
        let n = self.branches.len();
        let mut i: usize = 0;
        proof {
            assert(branch_lines(self.branches@.subrange(0, 0)) =~= Seq::<char>::empty());
            assert(out@ =~= branch_lines(self.branches@.subrange(0, 0)));
        }
        while i < n
            invariant
                0 <= i <= n,
                n == self.branches@.len(),
                out@ == branch_lines(self.branches@.subrange(0, i as int)),
            decreases n - i,
        {
            let e = &self.branches[i];
            out.append("- branch ");
            let id_text = u64_to_string(e.id.0);
            out.append(id_text.as_str());
            out.append(": ");
            out.append(e.label.as_str());
            out.append("\n");
            proof {
                let upto = self.branches@.subrange(0, i as int + 1);
                assert(upto.drop_last() =~= self.branches@.subrange(0, i as int));
                assert(upto.last() == self.branches@[i as int]);
                assert(out@ =~= branch_lines(upto));
            }
            i = i + 1;
        }
        proof {
            assert(self.branches@.subrange(0, n as int) =~= self.branches@);
        }
        let m = self.workers.len();
        let mut j: usize = 0;
        proof {
            assert(worker_lines(self.workers@.subrange(0, 0)) =~= Seq::<char>::empty());
            assert(out@ =~= branch_lines(self.branches@) + worker_lines(
                self.workers@.subrange(0, 0),
            ));
        }
        while j < m
            invariant
                0 <= j <= m,
                m == self.workers@.len(),
                out@ == branch_lines(self.branches@) + worker_lines(
                    self.workers@.subrange(0, j as int),
                ),
            decreases m - j,
        {
            let e = &self.workers[j];
            out.append("- worker ");
            let id_text = u64_to_string(e.id.0);
            out.append(id_text.as_str());
            out.append(": ");
            out.append(e.label.as_str());
            out.append("\n");
            proof {
                let upto = self.workers@.subrange(0, j as int + 1);
                assert(upto.drop_last() =~= self.workers@.subrange(0, j as int));
                assert(upto.last() == self.workers@[j as int]);
                assert(out@ =~= branch_lines(self.branches@) + worker_lines(upto));
            }
            j = j + 1;
        }
        proof {
            assert(self.workers@.subrange(0, m as int) =~= self.workers@);
        }
        match &self.last_tool {
            Some(name) => {
                out.append("Last tool: ");
                out.append(name.as_str());
                out.append("\n");
            },
            None => {},
        }
        match &self.last_status {
            Some(status) => {
                out.append("Status: ");
                out.append(status.as_str());
                out.append("\n");
            },
            None => {},
        }
        proof {
            assert(out@ =~= self.spec_render());
        }
        out
    }
}

} // verus!
