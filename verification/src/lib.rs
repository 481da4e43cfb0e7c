//! Orchestration core of a conversational agent platform.
//!
//! A long-lived channel process holds one conversation. On each turn it may
//! spawn bounded concurrent sub-processes: branches (ephemeral deliberation
//! over a snapshot of the history) and workers (delegated tasks with an
//! isolated context). Their results come back asynchronously over a process
//! event bus, are filtered per channel, folded into the conversation history
//! and surfaced through a textual status projection. The decision logic of
//! that life cycle lives here, verified; the runtime plumbing (task spawning,
//! queues, network edges) stays outside and calls into it with plain values.

pub mod attachments;
pub mod channel;
pub mod compaction;
pub mod config;
pub mod events;
pub mod history;
pub mod hooks;
pub mod identity;
pub mod ids;
pub mod laws;
pub mod messaging;
pub mod outside;
pub mod settings;
pub mod status;
pub mod text;
pub mod turn;
pub mod worker_tool;

pub use events::Attachment;
pub use events::InboundMessage;
pub use events::MessageContent;
pub use events::Metadata;
pub use events::MetaValue;
pub use events::OutboundResponse;
pub use events::ProcessEvent;
pub use events::StatusUpdate;
pub use events::event_is_for_channel;

pub use ids::BranchId;
pub use ids::ChannelId;
pub use ids::ProcessId;
pub use ids::ProcessType;
pub use ids::WorkerId;
