//! The turn protocol: message attribution, prompt assembly, persistence
//! decisions, engine outcomes and the compaction check that closes a turn.

use spacebot::channel::{Channel, ChannelConfig};
use spacebot::compaction::{CompactionAction, CompactionConfig};
use spacebot::events::{InboundMessage, MessageContent, MetaValue, Metadata};
use spacebot::history::{Message, Role};
use spacebot::ids::ChannelId;
use spacebot::turn::{build_conversation_context, format_user_message, EngineOutcome};

fn metadata(pairs: &[(&str, &str)]) -> Metadata {
    let mut m = Metadata::new();
    for (k, v) in pairs {
        m.insert(k.to_string(), MetaValue::Str(v.to_string()));
    }
    m
}

fn inbound(source: &str, text: &str, meta: Metadata) -> InboundMessage {
    InboundMessage {
        id: "m-1".to_string(),
        source: source.to_string(),
        conversation_id: "conv-1".to_string(),
        sender_id: "u-42".to_string(),
        agent_id: None,
        content: MessageContent::Text(text.to_string()),
        timestamp: 0,
        metadata: meta,
    }
}

fn test_channel() -> Channel {
    Channel::new(
        ChannelId(1),
        "agent-1",
        ChannelConfig::default(),
        "You are the channel.",
        "identity text",
        "branch prompt",
        "worker prompt",
    )
}

#[test]
fn user_text_is_attributed_with_display_name() {
    let msg = inbound("discord", "hi there", metadata(&[("sender_display_name", "Alice")]));
    assert_eq!(format_user_message("hi there", &msg), "[Alice]: hi there");
}

#[test]
fn user_text_falls_back_to_sender_id() {
    let msg = inbound("discord", "hi", metadata(&[]));
    assert_eq!(format_user_message("hi", &msg), "[u-42]: hi");
}

#[test]
fn system_text_passes_verbatim() {
    let msg = inbound("system", "[System: nudge]", metadata(&[]));
    assert_eq!(format_user_message("[System: nudge]", &msg), "[System: nudge]");
}

#[test]
fn conversation_context_names_platform_server_and_channel() {
    let msg = inbound(
        "discord",
        "hi",
        metadata(&[
            ("discord_guild_name", "My Server"),
            ("discord_channel_name", "general"),
        ]),
    );
    assert_eq!(
        build_conversation_context(&msg),
        "Platform: discord\nServer: My Server\nChannel: #general\n\
         Multiple users may be present. Each message is prefixed with [username]."
    );
}

#[test]
fn conversation_context_without_guild_metadata() {
    let msg = inbound("webhook", "hi", metadata(&[]));
    assert_eq!(
        build_conversation_context(&msg),
        "Platform: webhook\n\
         Multiple users may be present. Each message is prefixed with [username]."
    );
}

#[test]
fn system_messages_are_never_logged_as_user_messages() {
    let mut channel = test_channel();
    let msg = inbound("system", "[System: nudge]", metadata(&[]));
    let setup = channel.begin_turn(&msg);
    assert!(setup.log_user.is_none());
    assert_eq!(setup.user_text, "[System: nudge]");
    // The turn itself still happens: a prompt is assembled as usual.
    assert!(setup.system_prompt.contains("You are the channel."));
}

#[test]
fn ordinary_messages_are_logged_with_display_name() {
    let mut channel = test_channel();
    let msg = inbound("discord", "hello", metadata(&[("sender_display_name", "Alice")]));
    let setup = channel.begin_turn(&msg);
    let entry = setup.log_user.expect("platform messages are persisted");
    assert_eq!(entry.display_name, "Alice");
    assert_eq!(entry.sender_id, "u-42");
    assert_eq!(entry.text, "hello");
    assert_eq!(entry.channel_id, ChannelId(1));
}

#[test]
fn begin_turn_records_conversation_id_once() {
    let mut channel = test_channel();
    let msg = inbound("discord", "hello", metadata(&[]));
    channel.begin_turn(&msg);
    assert_eq!(channel.conversation_id.as_deref(), Some("conv-1"));

    let mut second = inbound("discord", "again", metadata(&[]));
    second.conversation_id = "conv-2".to_string();
    channel.begin_turn(&second);
    assert_eq!(channel.conversation_id.as_deref(), Some("conv-1"));
}

#[test]
fn system_prompt_is_identity_prompt_context_and_status() {
    let mut channel = test_channel();
    channel.state.status_block.last_tool = Some("shell".to_string());
    let msg = inbound("discord", "hello", metadata(&[("discord_guild_name", "S")]));
    let setup = channel.begin_turn(&msg);
    assert_eq!(
        setup.system_prompt,
        "identity text\n\nYou are the channel.\n\n## Conversation Context\n\n\
         Platform: discord\nServer: S\n\
         Multiple users may be present. Each message is prefixed with [username].\
         \n\n## Current Status\n\nLast tool: shell\n"
    );
}

#[test]
fn engine_text_is_trimmed_forwarded_and_logged() {
    let channel = test_channel();
    let actions = channel.finish_turn(&EngineOutcome::Text("  the answer \n".to_string()));
    assert_eq!(actions.reply.as_deref(), Some("the answer"));
    assert_eq!(actions.log_bot.as_deref(), Some("the answer"));
}

#[test]
fn whitespace_only_engine_text_sends_nothing() {
    let channel = test_channel();
    let actions = channel.finish_turn(&EngineOutcome::Text("  \n ".to_string()));
    assert!(actions.reply.is_none());
    assert!(actions.log_bot.is_none());
}

#[test]
fn turn_limit_and_cancellation_end_the_turn_silently() {
    let channel = test_channel();
    let limited = channel.finish_turn(&EngineOutcome::MaxTurnsExceeded);
    assert!(limited.reply.is_none());
    let cancelled = channel.finish_turn(&EngineOutcome::Cancelled("user".to_string()));
    assert!(cancelled.reply.is_none());
    let failed = channel.finish_turn(&EngineOutcome::Failed("provider down".to_string()));
    assert!(failed.reply.is_none());
    assert!(failed.log_bot.is_none());
}

#[test]
fn compaction_check_closes_every_turn_and_escalates_past_aggressive() {
    let config = ChannelConfig {
        max_concurrent_branches: 5,
        max_turns: 5,
        context_window: 100,
        compaction: CompactionConfig::default(),
    };
    let mut channel = Channel::new(ChannelId(1), "a", config, "p", "", "b", "w");
    // 360 characters estimate to 90 tokens: 900 per-mille of a 100-token
    // window, past the aggressive threshold (850) but short of the
    // emergency one (950).
    channel
        .state
        .history
        .push(Message { role: Role::User, text: "x".repeat(360) });
    let actions = channel.finish_turn(&EngineOutcome::Text("ok".to_string()));
    assert_eq!(actions.compaction, CompactionAction::Aggressive);
    // The turn's own outcome is unchanged by whatever becomes of the
    // compaction the runtime performs: the reply is still delivered.
    assert_eq!(actions.reply.as_deref(), Some("ok"));
}

#[test]
fn compaction_thresholds_escalate_in_order() {
    let config = CompactionConfig::default();
    let window = 1000usize;
    let make_history = |chars: usize| {
        vec![Message { role: Role::User, text: "y".repeat(chars) }]
    };
    // 4 chars per token: 3196 chars = 799 tokens, below every threshold.
    assert_eq!(
        spacebot::compaction::check_compaction(&make_history(3196), window, &config),
        CompactionAction::NoCompaction
    );
    assert_eq!(
        spacebot::compaction::check_compaction(&make_history(3200), window, &config),
        CompactionAction::Background
    );
    assert_eq!(
        spacebot::compaction::check_compaction(&make_history(3400), window, &config),
        CompactionAction::Aggressive
    );
    assert_eq!(
        spacebot::compaction::check_compaction(&make_history(3800), window, &config),
        CompactionAction::Emergency
    );
}

#[test]
fn media_content_yields_attachments_and_optional_text() {
    let mut channel = test_channel();
    let attachment = spacebot::events::Attachment {
        filename: "cat.png".to_string(),
        mime_type: "image/png".to_string(),
        url: "https://example.invalid/cat.png".to_string(),
        size_bytes: Some(2048),
    };
    let msg = InboundMessage {
        content: MessageContent::Media { text: None, attachments: vec![attachment] },
        ..inbound("discord", "", metadata(&[]))
    };
    let setup = channel.begin_turn(&msg);
    assert_eq!(setup.attachments.len(), 1);
    assert_eq!(setup.attachments[0].filename, "cat.png");
    assert_eq!(setup.user_text, "[u-42]: ");
}
