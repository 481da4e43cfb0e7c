//! Process identity: opaque identifiers for channels, branches and workers,
//! and the tagged union over them that names the origin of an event.

use vstd::prelude::*;

verus! {

/// Identifier of a channel process, stable for its lifetime.
#[derive(Clone, Copy, Debug, PartialEq, Eq, Structural, Hash)]
pub struct ChannelId(pub u64);

/// Identifier of a branch process, stable for its lifetime.
#[derive(Clone, Copy, Debug, PartialEq, Eq, Structural, Hash)]
pub struct BranchId(pub u64);

/// Identifier of a worker process, stable for its lifetime.
#[derive(Clone, Copy, Debug, PartialEq, Eq, Structural, Hash)]
pub struct WorkerId(pub u64);

/// Origin of a hook or event: which kind of process raised it, and its id.
#[derive(Clone, Copy, Debug, PartialEq, Eq, Structural)]
pub enum ProcessId {
    Channel(ChannelId),
    Branch(BranchId),
    Worker(WorkerId),
}

/// The kind of a process, without its identity.
#[derive(Clone, Copy, Debug, PartialEq, Eq, Structural)]
pub enum ProcessType {
    Channel,
    Branch,
    Worker,
}

impl ProcessId {
    /// The kind of the process this id names.
    pub fn process_type(&self) -> (t: ProcessType)
        ensures
            t == self.spec_process_type(),
    {
        match self {
            ProcessId::Channel(_) => ProcessType::Channel,
            ProcessId::Branch(_) => ProcessType::Branch,
            ProcessId::Worker(_) => ProcessType::Worker,
        }
    }

    /// The kind of the process this id names.
    pub open spec fn spec_process_type(&self) -> ProcessType {
        match self {
            ProcessId::Channel(_) => ProcessType::Channel,
            ProcessId::Branch(_) => ProcessType::Branch,
            ProcessId::Worker(_) => ProcessType::Worker,
        }
    }
}

} // verus!
