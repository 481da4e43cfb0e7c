//! The process event bus vocabulary: events published once per logical
//! occurrence, inbound and outbound messages, and the channel-scoped filter
//! every subscriber applies before acting.

use vstd::prelude::*;

use crate::ids::BranchId;
use crate::ids::ChannelId;
use crate::ids::ProcessId;
use crate::ids::WorkerId;

verus! {

/// A semi-structured metadata value attached to an inbound message.
#[derive(Clone, Debug)]
pub enum MetaValue {
    Str(String),
    U64(u64),
    Bool(bool),
}

impl MetaValue {
    /// The string inside, if this is a string value.
    pub open spec fn spec_as_str(self) -> Option<Seq<char>> {
        match self {
            MetaValue::Str(s) => Some(s@),
            _ => None,
        }
    }

    /// The integer inside, if this is an integer value.
    pub open spec fn spec_as_u64(self) -> Option<u64> {
        match self {
            MetaValue::U64(n) => Some(n),
            _ => None,
        }
    }
}

/// String-keyed, semi-structured metadata of an inbound message, looked up
/// by first match.
#[derive(Clone, Debug)]
pub struct Metadata {
    pub entries: Vec<(String, MetaValue)>,
}

/// First-match lookup in a sequence of key/value entries.
pub open spec fn entries_get(entries: Seq<(String, MetaValue)>, key: Seq<char>) -> Option<
    MetaValue,
>
    decreases entries.len(),
{
    if entries.len() == 0 {
        None
    } else if entries[0].0@ == key {
        Some(entries[0].1)
    } else {
        entries_get(entries.drop_first(), key)
    }
}

impl Metadata {
    /// The value stored under `key`, if any.
    pub open spec fn spec_get(self, key: Seq<char>) -> Option<MetaValue> {
        entries_get(self.entries@, key)
    }

    /// The string stored under `key`, if the key holds a string.
    pub open spec fn spec_get_str(self, key: Seq<char>) -> Option<Seq<char>> {
        match self.spec_get(key) {
            Some(v) => v.spec_as_str(),
            None => None,
        }
    }

    /// The integer stored under `key`, if the key holds an integer.
    pub open spec fn spec_get_u64(self, key: Seq<char>) -> Option<u64> {
        match self.spec_get(key) {
            Some(v) => v.spec_as_u64(),
            None => None,
        }
    }

    /// Metadata with no entries.
    pub fn new() -> (r: Metadata)
        ensures
            r.entries@.len() == 0,
    {
        Metadata { entries: Vec::new() }
    }

    /// Add an entry; it shadows any earlier entry with the same key.
    pub fn insert(&mut self, key: String, value: MetaValue)
        ensures
            final(self).entries@ == seq![(key, value)] + old(self).entries@,
            final(self).spec_get(key@) == Some(value),
    {
        let ghost entries0 = self.entries@;
        let mut rest: Vec<(String, MetaValue)> = Vec::new();
        rest.push((key, value));
        let ghost pushed = rest@;
        rest.append(&mut self.entries);
        self.entries = rest;
        proof {
            assert(self.entries@ =~= pushed + entries0);
        }
    }

    /// Look up the value under `key`.
    pub fn get(&self, key: &str) -> (r: Option<&MetaValue>)
        ensures
            match r {
                Some(v) => self.spec_get(key@) == Some(*v),
                None => self.spec_get(key@) is None,
            },
    {
        let key_string = String::from_str(key);
        let n = self.entries.len();
        proof {
            assert(self.entries@.subrange(0, n as int) =~= self.entries@);
        }
        let mut i: usize = 0;
        while i < n
            invariant
                0 <= i <= n,
                n == self.entries@.len(),
                key_string@ == key@,
                entries_get(self.entries@.subrange(i as int, n as int), key@) == self.spec_get(
                    key@,
                ),
            decreases n - i,
        {
            let ghost tail = self.entries@.subrange(i as int, n as int);
            proof {
                assert(tail[0] == self.entries@[i as int]);
                assert(tail.drop_first() =~= self.entries@.subrange(i as int + 1, n as int));
            }
            if self.entries[i].0 == key_string {
                proof {
                    assert(entries_get(tail, key@) == Some(tail[0].1));
                }
                return Some(&self.entries[i].1);
            }
            proof {
                assert(entries_get(tail, key@) == entries_get(tail.drop_first(), key@));
            }
            i = i + 1;
        }
        proof {
            assert(self.entries@.subrange(n as int, n as int).len() == 0);
        }
        None
    }

    /// Look up a string value under `key`.
    pub fn get_str(&self, key: &str) -> (r: Option<&String>)
        ensures
            match r {
                Some(s) => self.spec_get_str(key@) == Some(s@),
                None => self.spec_get_str(key@) is None,
            },
    {
        match self.get(key) {
            Some(MetaValue::Str(s)) => Some(s),
            _ => None,
        }
    }

    /// Look up an integer value under `key`.
    pub fn get_u64(&self, key: &str) -> (r: Option<u64>)
        ensures
            r == self.spec_get_u64(key@),
    {
        match self.get(key) {
            Some(MetaValue::U64(n)) => Some(*n),
            _ => None,
        }
    }
}

/// A file attached to an inbound message, by reference.
#[derive(Debug)]
pub struct Attachment {
    pub filename: String,
    pub mime_type: String,
    pub url: String,
    pub size_bytes: Option<u64>,
}

impl Clone for Attachment {
    /// A deep copy, equal to the original.
    fn clone(&self) -> (res: Self)
        ensures
            res == *self,
    {
        Attachment {
            filename: self.filename.clone(),
            mime_type: self.mime_type.clone(),
            url: self.url.clone(),
            size_bytes: self.size_bytes,
        }
    }
}

/// The content of an inbound message: plain text, or text with attachments.
#[derive(Clone, Debug)]
pub enum MessageContent {
    Text(String),
    Media { text: Option<String>, attachments: Vec<Attachment> },
}

/// A message entering a channel: from a messaging platform, or synthesized
/// internally to re-trigger a turn (source "system").
#[derive(Clone, Debug)]
pub struct InboundMessage {
    pub id: String,
    pub source: String,
    pub conversation_id: String,
    pub sender_id: String,
    pub agent_id: Option<String>,
    pub content: MessageContent,
    pub timestamp: i64,
    pub metadata: Metadata,
}

/// A user-visible status signal sent alongside responses.
#[derive(Clone, Copy, Debug, PartialEq, Eq, Structural)]
pub enum StatusUpdate {
    Thinking,
    Idle,
}

/// What the channel hands to the messaging layer.
#[derive(Clone, Debug)]
pub enum OutboundResponse {
    Text(String),
    ThreadReply { thread_name: String, text: String },
    StreamStart,
    StreamChunk(String),
    StreamEnd,
    Status(StatusUpdate),
}

/// An occurrence published on the process event bus. Published once per
/// logical occurrence; never mutated after publish.
#[derive(Clone, Debug)]
pub enum ProcessEvent {
    StatusUpdate { agent_id: String, process_id: ProcessId, status: String },
    ToolStarted { agent_id: String, process_id: ProcessId, tool_name: String },
    ToolCompleted { agent_id: String, process_id: ProcessId, tool_name: String, result: String },
    BranchResult { agent_id: String, channel_id: ChannelId, branch_id: BranchId, conclusion: String },
    WorkerComplete {
        agent_id: String,
        channel_id: Option<ChannelId>,
        worker_id: WorkerId,
        result: String,
        notify: bool,
    },
    WorkerStatus { channel_id: Option<ChannelId>, worker_id: WorkerId, status: String },
}

impl ProcessEvent {
    /// Whether this event kind carries a channel scope at all. Events without
    /// one (status updates, tool activity) pass every channel's filter, being
    /// already scoped upstream by agent identity.
    pub open spec fn is_channel_scoped(self) -> bool {
        match self {
            ProcessEvent::BranchResult { .. } => true,
            ProcessEvent::WorkerComplete { .. } => true,
            ProcessEvent::WorkerStatus { .. } => true,
            _ => false,
        }
    }
}

/// Whether an event passes the local filter of the channel named `channel_id`:
/// channel-scoped events only when their scope matches, all other kinds
/// unconditionally.
pub open spec fn spec_event_is_for_channel(event: ProcessEvent, channel_id: ChannelId) -> bool {
    match event {
        ProcessEvent::BranchResult { channel_id: event_channel, .. } => event_channel == channel_id,
        ProcessEvent::WorkerComplete { channel_id: event_channel, .. } => event_channel == Some(
            channel_id,
        ),
        ProcessEvent::WorkerStatus { channel_id: event_channel, .. } => event_channel == Some(
            channel_id,
        ),
        _ => true,
    }
}

/// Check whether a process event is targeted at a specific channel.
///
/// Events from branches and workers carry a channel id; a channel acts only
/// on those that originated from itself, so that broadcast events from one
/// channel's workers cannot leak into sibling channels.
pub fn event_is_for_channel(event: &ProcessEvent, channel_id: &ChannelId) -> (r: bool)
    ensures
        r == spec_event_is_for_channel(*event, *channel_id),
{
    match event {
        ProcessEvent::BranchResult { channel_id: event_channel, .. } => {
            *event_channel == *channel_id
        },
        ProcessEvent::WorkerComplete { channel_id: event_channel, .. } => {
            match event_channel {
                Some(c) => *c == *channel_id,
                None => false,
            }
        },
        ProcessEvent::WorkerStatus { channel_id: event_channel, .. } => {
            match event_channel {
                Some(c) => *c == *channel_id,
                None => false,
            }
        },
        _ => true,
    }
}

} // verus!
