//! The spawn_worker tool: how the model delegates a task to an independent
//! worker process. The tool acts on the channel's shared state directly;
//! the runtime starts the returned worker task, fire and forget.

use vstd::prelude::*;

use crate::channel::spawn_worker_ok;
use crate::channel::ChannelState;
use crate::channel::WorkerSpawn;
use crate::channel::spawn_worker_from_state;
use crate::ids::WorkerId;
use crate::text::dec_rep;
use crate::text::u64_to_string;

verus! {

/// Tool for spawning workers, holding the channel state it acts on.
#[derive(Debug)]
pub struct SpawnWorkerTool {
    pub state: ChannelState,
}

/// Error type for the spawn worker tool.
#[derive(Debug)]
pub struct SpawnWorkerError(pub String);

impl SpawnWorkerError {
    /// The error as user-facing text.
    pub fn message(&self) -> (r: String)
        ensures
            r@ == "Worker spawn failed: "@ + self.0@,
    {
        let mut out = String::from_str("Worker spawn failed: ");
        out.append(self.0.as_str());
        out
    }
}

/// Arguments for the spawn worker tool.
#[derive(Clone, Debug)]
pub struct SpawnWorkerArgs {
    /// The task description for the worker.
    pub task: String,
    /// Whether this is an interactive worker (accepts follow-up messages).
    pub interactive: bool,
    /// Optional skill name to load into the worker's context.
    pub skill: Option<String>,
}

/// Output from the spawn worker tool.
#[derive(Debug)]
pub struct SpawnWorkerOutput {
    /// The id of the spawned worker.
    pub worker_id: WorkerId,
    /// Whether the worker was spawned successfully.
    pub spawned: bool,
    /// Whether this is an interactive worker.
    pub interactive: bool,
    /// Status message.
    pub message: String,
}

/// The tool's status message for a spawned worker.
pub open spec fn spawn_worker_message(id: WorkerId, task: Seq<char>, interactive: bool) -> Seq<
    char,
> {
    if interactive {
        "Interactive worker "@ + dec_rep(id.0 as nat) + " spawned for: "@ + task
            + ". Route follow-ups with route_to_worker."@
    } else {
        "Worker "@ + dec_rep(id.0 as nat) + " spawned for: "@ + task
            + ". It will report back when done."@
    }
}

impl SpawnWorkerTool {
    /// Create a new spawn worker tool with access to channel state.
    pub fn new(state: ChannelState) -> (r: Self)
        ensures
            r.state == state,
    {
        SpawnWorkerTool { state }
    }

    /// Spawn a worker for the given arguments.
    ///
    /// Always succeeds: the worker is recorded in the channel state, and
    /// the runtime receives the isolated task to start. The output carries
    /// the fresh id and a status message naming it.
    pub fn call(&mut self, args: &SpawnWorkerArgs) -> (r: Result<
        (SpawnWorkerOutput, WorkerSpawn),
        SpawnWorkerError,
    >)
        requires
            old(self).state.wf(),
            old(self).state.next_worker_id < u64::MAX,
        ensures
            final(self).state.wf(),
            r matches Ok((out, spawn)) && ({
                &&& spawn_worker_ok(
                    old(self).state,
                    final(self).state,
                    spawn,
                    args.task@,
                    args.interactive,
                    (match args.skill {
                        Some(s) => Some(s@),
                        None => None,
                    }),
                )
                &&& out.worker_id == spawn.id
                &&& out.spawned
                &&& out.interactive == args.interactive
                &&& out.message@ == spawn_worker_message(
                    spawn.id,
                    args.task@,
                    args.interactive,
                )
            }),
    {
        let skill: Option<&str> = match &args.skill {
            Some(s) => Some(s.as_str()),
            None => None,
        };
        let spawn = match spawn_worker_from_state(
            &mut self.state,
            args.task.as_str(),
            args.interactive,
            skill,
        ) {
            Ok(spawn) => spawn,
            Err(_) => {
                proof {
                    assert(false);
                }
                return Err(SpawnWorkerError(String::from_str("unreachable")));
            },
        };
        let id_text = u64_to_string(spawn.id.0);
        let mut message = if args.interactive {
            String::from_str("Interactive worker ")
        } else {
            String::from_str("Worker ")
        };
        message.append(id_text.as_str());
        message.append(" spawned for: ");
        message.append(args.task.as_str());
        if args.interactive {
            message.append(". Route follow-ups with route_to_worker.");
        } else {
            message.append(". It will report back when done.");
        }
        let output = SpawnWorkerOutput {
            worker_id: spawn.id,
            spawned: true,
            interactive: args.interactive,
            message,
        };
        Ok((output, spawn))
    }
}

} // verus!
