//! Text utilities, status rendering, message chunking and inbound filters.

use spacebot::events::{MetaValue, Metadata, ProcessEvent};
use spacebot::ids::{BranchId, ChannelId, ProcessId, WorkerId};
use spacebot::messaging::{
    accept_inbound, build_conversation_id, extract_content, order_history, split_message,
    stream_display_text, FetchedMessage, InboundFilters,
};
use spacebot::event_is_for_channel;
use spacebot::status::StatusBlock;
use spacebot::text::{str_starts_with, trim, trim_start, u64_to_string};

#[test]
fn decimal_rendering_is_exact() {
    assert_eq!(u64_to_string(0), "0");
    assert_eq!(u64_to_string(7), "7");
    assert_eq!(u64_to_string(1234567890), "1234567890");
    assert_eq!(u64_to_string(u64::MAX), "18446744073709551615");
}

#[test]
fn trimming_strips_the_usual_whitespace() {
    assert_eq!(trim("  hi \n"), "hi");
    assert_eq!(trim("\t\r\n "), "");
    assert_eq!(trim("solid"), "solid");
    assert_eq!(trim_start("  lead  "), "lead  ");
}

#[test]
fn prefix_tests() {
    assert!(str_starts_with("env:FOO", "env:"));
    assert!(!str_starts_with("en:FOO", "env:"));
    assert!(!str_starts_with("en", "env:"));
}

#[test]
fn short_messages_stay_whole() {
    assert_eq!(split_message("hello", 2000), vec!["hello".to_string()]);
    assert_eq!(split_message("", 2000), vec!["".to_string()]);
}

#[test]
fn long_messages_split_at_spaces() {
    assert_eq!(
        split_message("hello world foo", 10),
        vec!["hello".to_string(), "world foo".to_string()]
    );
}

#[test]
fn newlines_win_over_spaces_as_split_points() {
    assert_eq!(
        split_message("ab cd\nefgh ijklmnop", 10),
        vec!["ab cd".to_string(), "efgh".to_string(), "ijklmnop".to_string()]
    );
}

#[test]
fn unbreakable_text_is_cut_hard() {
    assert_eq!(
        split_message("abcdefghijkl", 5),
        vec!["abcde".to_string(), "fghij".to_string(), "kl".to_string()]
    );
}

#[test]
fn stream_text_is_cut_with_an_ellipsis() {
    assert_eq!(stream_display_text("abcdefghijk", 10), "abcdefg...");
    assert_eq!(stream_display_text("short", 10), "short");
}

#[test]
fn conversation_ids_name_guild_channel_or_dm() {
    assert_eq!(build_conversation_id(Some(11), 22, 33), "discord:11:22");
    assert_eq!(build_conversation_id(None, 22, 33), "discord:dm:33");
}

#[test]
fn content_extraction_distinguishes_text_and_media() {
    match extract_content("hi", Vec::new()) {
        spacebot::events::MessageContent::Text(t) => assert_eq!(t, "hi"),
        other => panic!("expected text content, got {:?}", other),
    }
    let attachment = spacebot::events::Attachment {
        filename: "a.txt".to_string(),
        mime_type: "text/plain".to_string(),
        url: "https://example.invalid/a.txt".to_string(),
        size_bytes: None,
    };
    match extract_content("", vec![attachment]) {
        spacebot::events::MessageContent::Media { text, attachments } => {
            assert!(text.is_none());
            assert_eq!(attachments.len(), 1);
        }
        other => panic!("expected media content, got {:?}", other),
    }
}

fn filters(
    guild_filter: Option<Vec<u64>>,
    channel_filter: Vec<(u64, Vec<u64>)>,
    dm_allowed_users: Vec<u64>,
) -> InboundFilters {
    InboundFilters { guild_filter, channel_filter, dm_allowed_users }
}

#[test]
fn bots_and_unknown_dm_senders_are_dropped() {
    let f = filters(None, vec![], vec![]);
    assert!(!accept_inbound(true, Some(1), 5, 10, None, &f));
    // No DM allowlist: every direct message is ignored.
    assert!(!accept_inbound(false, None, 5, 10, None, &f));
    let f2 = filters(None, vec![], vec![5]);
    assert!(accept_inbound(false, None, 5, 10, None, &f2));
    assert!(!accept_inbound(false, None, 6, 10, None, &f2));
}

#[test]
fn guild_and_channel_filters_admit_threads_under_allowed_parents() {
    let f = filters(Some(vec![1]), vec![(1, vec![10])], vec![]);
    assert!(accept_inbound(false, Some(1), 5, 10, None, &f));
    assert!(!accept_inbound(false, Some(2), 5, 10, None, &f));
    assert!(!accept_inbound(false, Some(1), 5, 11, None, &f));
    // A thread whose parent channel is allowed passes.
    assert!(accept_inbound(false, Some(1), 5, 11, Some(10), &f));
    // An empty per-guild allowlist admits every channel.
    let open = filters(None, vec![(1, vec![])], vec![]);
    assert!(accept_inbound(false, Some(1), 5, 99, None, &open));
    // A guild without a channel-allowlist entry admits every channel.
    let unlisted = filters(None, vec![(1, vec![10])], vec![]);
    assert!(accept_inbound(false, Some(3), 5, 99, None, &unlisted));
}

#[test]
fn fetched_history_is_reversed_and_bot_marked() {
    let fetched = vec![
        FetchedMessage { author: "newest".to_string(), author_id: 9, content: "n".to_string() },
        FetchedMessage { author: "bot".to_string(), author_id: 1, content: "b".to_string() },
        FetchedMessage { author: "oldest".to_string(), author_id: 2, content: "o".to_string() },
    ];
    let ordered = order_history(&fetched, Some(1));
    assert_eq!(ordered.len(), 3);
    assert_eq!(ordered[0].author, "oldest");
    assert_eq!(ordered[2].author, "newest");
    assert!(ordered[1].is_bot);
    assert!(!ordered[0].is_bot);
    // Unknown bot id: nothing is marked.
    let unmarked = order_history(&fetched, None);
    assert!(unmarked.iter().all(|m| !m.is_bot));
}

#[test]
fn status_block_renders_deterministically() {
    let mut status = StatusBlock::new();
    assert_eq!(status.render(), "");
    status.add_branch(BranchId(0), "thinking...");
    status.add_worker(WorkerId(1), "fetch docs", false);
    status.last_tool = Some("shell".to_string());
    assert_eq!(
        status.render(),
        "- branch 0: thinking...\n- worker 1: fetch docs\nLast tool: shell\n"
    );
    // Rendering is an idempotent read.
    assert_eq!(
        status.render(),
        "- branch 0: thinking...\n- worker 1: fetch docs\nLast tool: shell\n"
    );
}

#[test]
fn status_block_removes_entries_on_terminal_events() {
    let mut status = StatusBlock::new();
    status.add_branch(BranchId(0), "thinking...");
    status.add_worker(WorkerId(1), "task", true);
    status.update(&ProcessEvent::BranchResult {
        agent_id: "a".to_string(),
        channel_id: ChannelId(1),
        branch_id: BranchId(0),
        conclusion: "c".to_string(),
    });
    assert!(status.branches.is_empty());
    status.update(&ProcessEvent::WorkerComplete {
        agent_id: "a".to_string(),
        channel_id: Some(ChannelId(1)),
        worker_id: WorkerId(1),
        result: "r".to_string(),
        notify: true,
    });
    assert!(status.workers.is_empty());
    status.update(&ProcessEvent::StatusUpdate {
        agent_id: "a".to_string(),
        process_id: ProcessId::Worker(WorkerId(1)),
        status: "busy".to_string(),
    });
    assert_eq!(status.render(), "Status: busy\n");
}

#[test]
fn metadata_lookup_is_first_match_and_insert_shadows() {
    let mut m = Metadata::new();
    m.insert("k".to_string(), MetaValue::Str("old".to_string()));
    m.insert("k".to_string(), MetaValue::Str("new".to_string()));
    match m.get("k") {
        Some(MetaValue::Str(s)) => assert_eq!(s, "new"),
        other => panic!("expected the shadowing entry, got {:?}", other),
    }
    assert!(m.get("missing").is_none());
    m.insert("n".to_string(), MetaValue::U64(5));
    assert_eq!(m.get_u64("n"), Some(5));
    assert!(m.get_str("n").is_none());
}

#[test]
fn event_filter_matches_channel_scope() {
    let me = ChannelId(1);
    let mine = ProcessEvent::BranchResult {
        agent_id: "a".to_string(),
        channel_id: ChannelId(1),
        branch_id: BranchId(0),
        conclusion: "c".to_string(),
    };
    let other = ProcessEvent::WorkerStatus {
        channel_id: Some(ChannelId(2)),
        worker_id: WorkerId(0),
        status: "s".to_string(),
    };
    let unscoped = ProcessEvent::ToolCompleted {
        agent_id: "a".to_string(),
        process_id: ProcessId::Branch(BranchId(0)),
        tool_name: "t".to_string(),
        result: "r".to_string(),
    };
    assert!(event_is_for_channel(&mine, &me));
    assert!(!event_is_for_channel(&other, &me));
    assert!(event_is_for_channel(&unscoped, &me));
}
