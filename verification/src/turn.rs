//! The channel turn protocol: the pure decisions of one message-handling
//! turn. The runtime drives the loop — registering the per-turn tools,
//! calling the completion engine, performing I/O — and this module decides
//! everything else: message formatting and attribution, prompt assembly,
//! what to persist, what to send, and the compaction check that closes
//! every turn. The single-result events of branch and worker tasks are
//! built here too.

use vstd::prelude::*;

use crate::channel::Channel;
use crate::compaction::check_compaction;
use crate::compaction::spec_compaction_action;
use crate::compaction::spec_estimated_tokens;
use crate::compaction::CompactionAction;
use crate::events::Attachment;
use crate::events::InboundMessage;
use crate::events::MessageContent;
use crate::events::ProcessEvent;
use crate::ids::BranchId;
use crate::ids::ChannelId;
use crate::ids::WorkerId;
use crate::text::trim;
use crate::text::trim_spec;

verus! {

/// The text of an inbound message's content: media content may carry no
/// text at all, which reads as empty.
pub open spec fn raw_text_of(content: MessageContent) -> Seq<char> {
    match content {
        MessageContent::Text(t) => t@,
        MessageContent::Media { text: Some(t), .. } => t@,
        MessageContent::Media { text: None, .. } => Seq::empty(),
    }
}

/// The attachments of an inbound message's content.
pub open spec fn attachments_of(content: MessageContent) -> Seq<Attachment> {
    match content {
        MessageContent::Text(_) => Seq::empty(),
        MessageContent::Media { attachments, .. } => attachments@,
    }
}

/// The display name a message is attributed to: the sender's display-name
/// metadata when present, the raw sender id otherwise.
pub open spec fn display_name_of(m: InboundMessage) -> Seq<char> {
    match m.metadata.spec_get_str("sender_display_name"@) {
        Some(n) => n,
        None => m.sender_id@,
    }
}

/// How a message's text reaches the model: system-synthesized text passes
/// verbatim; everything else is prefixed with the sender's name so the
/// model can tell who is talking in a multi-user channel.
pub open spec fn spec_format_user_message(raw: Seq<char>, m: InboundMessage) -> Seq<char> {
    if m.source@ == "system"@ {
        raw
    } else {
        "["@ + display_name_of(m) + "]: "@ + raw
    }
}

/// Format a user message with sender attribution from message metadata.
pub fn format_user_message(raw_text: &str, message: &InboundMessage) -> (r: String)
    ensures
        r@ == spec_format_user_message(raw_text@, *message),
{
    let system = String::from_str("system");
    if message.source == system {
        return String::from_str(raw_text);
    }
    let mut out = String::from_str("[");
    match message.metadata.get_str("sender_display_name") {
        Some(name) => out.append(name.as_str()),
        None => out.append(message.sender_id.as_str()),
    }
    out.append("]: ");
    out.append(raw_text);
    out
}

/// The conversation-context block injected into the system prompt: the
/// platform, then the server and channel names when the metadata names
/// them, then a note about multi-user attribution.
pub open spec fn spec_conversation_context(m: InboundMessage) -> Seq<char> {
    "Platform: "@ + m.source@ + (match m.metadata.spec_get_str("discord_guild_name"@) {
        Some(g) => "\nServer: "@ + g,
        None => Seq::empty(),
    }) + (match m.metadata.spec_get_str("discord_channel_name"@) {
        Some(c) => "\nChannel: #"@ + c,
        None => Seq::empty(),
    }) + "\nMultiple users may be present. Each message is prefixed with [username]."@
}

/// Build the conversation-context string from a message's metadata, for
/// injection into every later system prompt.
pub fn build_conversation_context(message: &InboundMessage) -> (r: String)
    ensures
        r@ == spec_conversation_context(*message),
{
    let mut out = String::from_str("Platform: ");
    out.append(message.source.as_str());
    match message.metadata.get_str("discord_guild_name") {
        Some(g) => {
            out.append("\nServer: ");
            out.append(g.as_str());
        },
        None => {},
    }
    match message.metadata.get_str("discord_channel_name") {
        Some(c) => {
            out.append("\nChannel: #");
            out.append(c.as_str());
        },
        None => {},
    }
    out.append("\nMultiple users may be present. Each message is prefixed with [username].");
    out
}

/// The assembled system prompt of a turn: identity context (when present),
/// the channel prompt, the conversation context, and the current status
/// block (when non-empty).
pub open spec fn spec_system_prompt(
    identity: Seq<char>,
    channel_prompt: Seq<char>,
    context: Seq<char>,
    status: Seq<char>,
) -> Seq<char> {
    (if identity.len() > 0 {
        identity + "\n\n"@
    } else {
        Seq::empty()
    }) + channel_prompt + "\n\n## Conversation Context\n\n"@ + context + (if status.len() > 0 {
        "\n\n## Current Status\n\n"@ + status
    } else {
        Seq::empty()
    })
}

/// One user-message persistence request, handed to the conversation logger
/// by the runtime, fire and forget.
#[derive(Debug)]
pub struct UserLogEntry {
    pub channel_id: ChannelId,
    pub display_name: String,
    pub sender_id: String,
    pub text: String,
}

/// Everything a turn needs before the completion-engine call: the
/// attributed user text, the assembled system prompt, the attachments still
/// to resolve, and the persistence request — absent for system-synthesized
/// retriggers, which are never logged as user messages.
#[derive(Debug)]
pub struct TurnSetup {
    pub user_text: String,
    pub system_prompt: String,
    pub attachments: Vec<Attachment>,
    pub log_user: Option<UserLogEntry>,
}

/// Copy an attachment list out of a message's content.
fn clone_attachments(atts: &Vec<Attachment>) -> (r: Vec<Attachment>)
    ensures
        r@ == atts@,
{
    let n = atts.len();
    let mut out: Vec<Attachment> = Vec::new();
    let mut i: usize = 0;
    while i < n
        invariant
            0 <= i <= n,
            n == atts@.len(),
            out@ == atts@.subrange(0, i as int),
        decreases n - i,
    {
        out.push(atts[i].clone());
        proof {
            assert(out@ =~= atts@.subrange(0, i as int + 1));
        }
        i = i + 1;
    }
    proof {
        assert(atts@.subrange(0, n as int) =~= atts@);
    }
    out
}

impl Channel {
    /// Open a turn for an inbound message.
    ///
    /// Records the conversation id and the conversation context the first
    /// time each is seen, extracts and attributes the message text, decides
    /// whether the message is persisted (system retriggers are not), and
    /// assembles the system prompt from identity, channel prompt, context
    /// and the rendered status block. The channel's shared state is not
    /// touched.
    pub fn begin_turn(&mut self, message: &InboundMessage) -> (setup: TurnSetup)
        requires
            old(self).wf(),
        ensures
            final(self).wf(),
            final(self).state == old(self).state,
            final(self).id == old(self).id,
            final(self).title == old(self).title,
            final(self).config == old(self).config,
            final(self).agent_id == old(self).agent_id,
            final(self).system_prompt == old(self).system_prompt,
            final(self).conversation_id == (match old(self).conversation_id {
                Some(cid) => Some(cid),
                None => Some(message.conversation_id),
            }),
            (match final(self).conversation_context {
                Some(ctx) => match old(self).conversation_context {
                    Some(old_ctx) => ctx == old_ctx,
                    None => ctx@ == spec_conversation_context(*message),
                },
                None => false,
            }),
            setup.user_text@ == spec_format_user_message(raw_text_of(message.content), *message),
            setup.attachments@ == attachments_of(message.content),
            message.source@ == "system"@ ==> setup.log_user is None,
            message.source@ != "system"@ ==> (setup.log_user matches Some(entry) && {
                &&& entry.channel_id == old(self).id
                &&& entry.display_name@ == display_name_of(*message)
                &&& entry.sender_id == message.sender_id
                &&& entry.text@ == raw_text_of(message.content)
            }),

            setup.system_prompt@ == spec_system_prompt(
                old(self).state.identity_context@,
                old(self).system_prompt@,
                (match final(self).conversation_context {
                    Some(ctx) => ctx@,
                    None => Seq::empty(),
                }),
                old(self).state.status_block.spec_render(),
            ),
    {
        if self.conversation_id.is_none() {
            self.conversation_id = Some(message.conversation_id.clone());
        }
        let (raw_text, attachments) = match &message.content {
            MessageContent::Text(t) => (t.clone(), Vec::new()),
            MessageContent::Media { text, attachments } => {
                let t = match text {
                    Some(t) => t.clone(),
                    None => String::new(),
                };
                (t, clone_attachments(attachments))
            },
        };
        let user_text = format_user_message(raw_text.as_str(), message);
        let system = String::from_str("system");
        let log_user = if !(message.source == system) {
            let display_name = match message.metadata.get_str("sender_display_name") {
                Some(n) => n.clone(),
                None => message.sender_id.clone(),
            };
            Some(
                UserLogEntry {
                    channel_id: self.id,
                    display_name,
                    sender_id: message.sender_id.clone(),
                    text: raw_text,
                },
            )
        } else {
            None
        };
        if self.conversation_context.is_none() {
            self.conversation_context = Some(build_conversation_context(message));
        }
        let status_text = self.state.status_block.render();
        let mut system_prompt = String::new();
        if self.state.identity_context.as_str().unicode_len() > 0 {
            system_prompt.append(self.state.identity_context.as_str());
            system_prompt.append("\n\n");
        }
        system_prompt.append(self.system_prompt.as_str());
        system_prompt.append("\n\n## Conversation Context\n\n");
        match &self.conversation_context {
            Some(ctx) => system_prompt.append(ctx.as_str()),
            None => {},
        }
        if status_text.as_str().unicode_len() > 0 {
            system_prompt.append("\n\n## Current Status\n\n");
            system_prompt.append(status_text.as_str());
        }
        TurnSetup { user_text, system_prompt, attachments, log_user }
    }
}

/// How a completion-engine call ended, from the channel's point of view:
/// free text to forward, the expected turn-limit and cancellation signals,
/// or a generic failure. Only the first produces output; the others are
/// logged by the runtime and end the turn silently.
#[derive(Debug)]
pub enum EngineOutcome {
    Text(String),
    MaxTurnsExceeded,
    Cancelled(String),
    Failed(String),
}

/// What closes a turn: the reply to forward (when the engine returned
/// non-empty text outside the reply tool), the bot-message persistence
/// request, and the compaction action for the grown history.
#[derive(Debug)]
pub struct TurnActions {
    pub reply: Option<String>,
    pub log_bot: Option<String>,
    pub compaction: CompactionAction,
}

impl Channel {
    /// Close a turn after the completion-engine call.
    ///
    /// Engine text is trimmed and — when non-empty — both forwarded as the
    /// reply and persisted as a bot message. Turn-limit, cancellation and
    /// generic failure end the turn with no output. The compaction check is
    /// part of every close, whatever the outcome: its action is computed
    /// here and performed by the runtime, whose failures never reach the
    /// turn's own result.
    pub fn finish_turn(&self, outcome: &EngineOutcome) -> (a: TurnActions)
        requires
            self.wf(),
            self.config.compaction.wf(),
        ensures
            (match *outcome {
                EngineOutcome::Text(t) => {
                    &&& trim_spec(t@).len() > 0 ==> ({
                        &&& a.reply matches Some(r) && r@ == trim_spec(t@)
                        &&& a.log_bot matches Some(l) && l@ == trim_spec(t@)
                    })
                    &&& trim_spec(t@).len() == 0 ==> a.reply is None && a.log_bot is None
                },
                _ => a.reply is None && a.log_bot is None,
            }),
            a.compaction == spec_compaction_action(
                spec_estimated_tokens(self.state.history@),
                self.config.context_window as nat,
                self.config.compaction,
            ),
    {
        let (reply, log_bot) = match outcome {
            EngineOutcome::Text(t) => {
                let trimmed = trim(t.as_str());
                if trimmed.unicode_len() > 0 {
                    let text = String::from_str(trimmed);
                    (Some(text.clone()), Some(text))
                } else {
                    (None, None)
                }
            },
            _ => (None, None),
        };
        let compaction = check_compaction(
            &self.state.history,
            self.config.context_window,
            &self.config.compaction,
        );
        TurnActions { reply, log_bot, compaction }
    }
}

/// Build the single completion event a worker task publishes.
///
/// Exactly one such event closes every worker, in success and failure
/// alike, always with `notify` set: failure is carried in the text of
/// `result`, never through a different channel.
pub fn worker_completion_event(
    agent_id: &str,
    channel_id: Option<ChannelId>,
    worker_id: WorkerId,
    outcome: &Result<String, String>,
) -> (e: ProcessEvent)
    ensures
        e matches ProcessEvent::WorkerComplete {
            agent_id: a,
            channel_id: c,
            worker_id: w,
            result: r,
            notify,
        } && ({
            &&& a@ == agent_id@
            &&& c == channel_id
            &&& w == worker_id
            &&& notify
            &&& (match *outcome {
                Ok(text) => r@ == text@,
                Err(error) => r@ == "Worker failed: "@ + error@,
            })
        }),
{
    let result = match outcome {
        Ok(text) => text.clone(),
        Err(error) => {
            let mut r = String::from_str("Worker failed: ");
            r.append(error.as_str());
            r
        },
    };
    ProcessEvent::WorkerComplete {
        agent_id: String::from_str(agent_id),
        channel_id,
        worker_id,
        result,
        notify: true,
    }
}

/// Build the single result event a branch task publishes.
///
/// Exactly one such event closes every branch; an internal error becomes
/// conclusion text that states the failure, and the event is still emitted.
pub fn branch_result_event(
    agent_id: &str,
    channel_id: ChannelId,
    branch_id: BranchId,
    outcome: &Result<String, String>,
) -> (e: ProcessEvent)
    ensures
        e matches ProcessEvent::BranchResult {
            agent_id: a,
            channel_id: c,
            branch_id: b,
            conclusion,
        } && ({
            &&& a@ == agent_id@
            &&& c == channel_id
            &&& b == branch_id
            &&& (match *outcome {
                Ok(text) => conclusion@ == text@,
                Err(error) => conclusion@ == "Branch failed: "@ + error@,
            })
        }),
{
    let conclusion = match outcome {
        Ok(text) => text.clone(),
        Err(error) => {
            let mut c = String::from_str("Branch failed: ");
            c.append(error.as_str());
            c
        },
    };
    ProcessEvent::BranchResult {
        agent_id: String::from_str(agent_id),
        channel_id,
        branch_id,
        conclusion,
    }
}

} // verus!
