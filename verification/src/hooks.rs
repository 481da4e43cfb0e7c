//! Observation hooks: the events a channel, branch or worker publishes
//! around its completion-engine calls, and the scan of tool output for
//! leaked credentials. The runtime wires these into the engine's hook
//! interface and publishes the returned events on the bus.

use vstd::prelude::*;

use crate::events::ProcessEvent;
use crate::ids::ProcessId;
use crate::ids::ProcessType;
use crate::outside::regex_find_of;
use crate::outside::regex_find_first;

verus! {

/// Hook state for one process: who it is, stamped on every event it
/// publishes.
#[derive(Clone, Debug)]
pub struct SpacebotHook {
    pub agent_id: String,
    pub process_id: ProcessId,
    pub process_type: ProcessType,
}

/// The credential shapes the leak scan looks for, in the order they are
/// tried.
pub open spec fn leak_patterns() -> Seq<Seq<char>> {
    seq![
        "sk-[a-zA-Z0-9]{48}"@,
        "-----BEGIN.*PRIVATE KEY-----"@,
        "ghp_[a-zA-Z0-9]{36}"@,
        "AIza[0-9A-Za-z_-]{35}"@,
    ]
}

/// The first match of the first pattern that matches at all, if any.
pub open spec fn scan_from(patterns: Seq<Seq<char>>, content: Seq<char>) -> Option<Seq<char>>
    decreases patterns.len(),
{
    if patterns.len() == 0 {
        None
    } else {
        match regex_find_of(patterns[0], content) {
            Some(m) => Some(m),
            None => scan_from(patterns.drop_first(), content),
        }
    }
}

impl SpacebotHook {
    /// Create a new hook.
    pub fn new(agent_id: String, process_id: ProcessId, process_type: ProcessType) -> (r: Self)
        ensures
            r.agent_id == agent_id,
            r.process_id == process_id,
            r.process_type == process_type,
    {
        SpacebotHook { agent_id, process_id, process_type }
    }

    /// The status update event this process publishes, for the runtime to
    /// put on the bus, best effort.
    pub fn status_event(&self, status: &str) -> (e: ProcessEvent)
        ensures
            e matches ProcessEvent::StatusUpdate { agent_id, process_id, status: s } && agent_id
                == self.agent_id && process_id == self.process_id && s@ == status@,
    {
        ProcessEvent::StatusUpdate {
            agent_id: self.agent_id.clone(),
            process_id: self.process_id,
            status: String::from_str(status),
        }
    }

    /// The event published when a tool call starts.
    pub fn tool_started_event(&self, tool_name: &str) -> (e: ProcessEvent)
        ensures
            e matches ProcessEvent::ToolStarted { agent_id, process_id, tool_name: t } && agent_id
                == self.agent_id && process_id == self.process_id && t@ == tool_name@,
    {
        ProcessEvent::ToolStarted {
            agent_id: self.agent_id.clone(),
            process_id: self.process_id,
            tool_name: String::from_str(tool_name),
        }
    }

    /// The event published when a tool call completes, carrying its result.
    pub fn tool_completed_event(&self, tool_name: &str, result: &str) -> (e: ProcessEvent)
        ensures
            e matches ProcessEvent::ToolCompleted {
                agent_id,
                process_id,
                tool_name: t,
                result: r,
            } && agent_id == self.agent_id && process_id == self.process_id && t@ == tool_name@
                && r@ == result@,
    {
        ProcessEvent::ToolCompleted {
            agent_id: self.agent_id.clone(),
            process_id: self.process_id,
            tool_name: String::from_str(tool_name),
            result: String::from_str(result),
        }
    }

    /// Scan content for potential secret leaks: the known credential shapes
    /// are tried in order, and the first match of the first matching shape
    /// is handed back for the runtime to log a warning about.
    pub fn scan_for_leaks(&self, content: &str) -> (r: Option<String>)
        ensures
            (match r {
                Some(m) => scan_from(leak_patterns(), content@) == Some(m@),
                None => scan_from(leak_patterns(), content@) is None,
            }),
    {
        let ghost ps = leak_patterns();
        let ghost ps1 = ps.drop_first();
        let ghost ps2 = ps1.drop_first();
        let ghost ps3 = ps2.drop_first();
        proof {
            assert(ps[0] == "sk-[a-zA-Z0-9]{48}"@);
            assert(ps1[0] == "-----BEGIN.*PRIVATE KEY-----"@);
            assert(ps2[0] == "ghp_[a-zA-Z0-9]{36}"@);
            assert(ps3[0] == "AIza[0-9A-Za-z_-]{35}"@);
            assert(ps3.drop_first() =~= Seq::<Seq<char>>::empty());
        }
        if let Some(m) = regex_find_first("sk-[a-zA-Z0-9]{48}", content) {
            proof {
                assert(scan_from(ps, content@) == Some(m@));
            }
            return Some(m);
        }
        proof {
            assert(scan_from(ps, content@) == scan_from(ps1, content@));
        }
        if let Some(m) = regex_find_first("-----BEGIN.*PRIVATE KEY-----", content) {
            proof {
                assert(scan_from(ps1, content@) == Some(m@));
            }
            return Some(m);
        }
        proof {
            assert(scan_from(ps1, content@) == scan_from(ps2, content@));
        }
        if let Some(m) = regex_find_first("ghp_[a-zA-Z0-9]{36}", content) {
            proof {
                assert(scan_from(ps2, content@) == Some(m@));
            }
            return Some(m);
        }
        proof {
            assert(scan_from(ps2, content@) == scan_from(ps3, content@));
        }
        if let Some(m) = regex_find_first("AIza[0-9A-Za-z_-]{35}", content) {
            proof {
                assert(scan_from(ps3, content@) == Some(m@));
            }
            return Some(m);
        }
        proof {
            assert(scan_from(ps3, content@) == scan_from(ps3.drop_first(), content@));
            assert(scan_from(ps3.drop_first(), content@) is None);
        }
        None
    }
}

} // verus!
