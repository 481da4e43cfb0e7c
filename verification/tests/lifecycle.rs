//! Branch and worker lifecycle: admission limits, snapshot isolation, and
//! terminal-event handling.

use spacebot::channel::{
    spawn_branch_from_state, spawn_worker_from_state, AgentError, Channel, ChannelConfig,
};
use spacebot::compaction::CompactionConfig;
use spacebot::events::ProcessEvent;
use spacebot::history::{Message, Role};
use spacebot::ids::{BranchId, ChannelId, WorkerId};
use spacebot::turn::worker_completion_event;

fn test_channel(max_branches: usize) -> Channel {
    let config = ChannelConfig {
        max_concurrent_branches: max_branches,
        max_turns: 5,
        context_window: 128_000,
        compaction: CompactionConfig::default(),
    };
    Channel::new(
        ChannelId(7),
        "agent-1",
        config,
        "channel prompt",
        "",
        "branch prompt",
        "worker prompt",
    )
}

#[test]
fn branch_limit_two_spawns_succeed_third_rejected() {
    let mut channel = test_channel(2);
    let a = spawn_branch_from_state(&mut channel.state, "think about A").unwrap();
    let b = spawn_branch_from_state(&mut channel.state, "think about B").unwrap();
    assert_ne!(a.id, b.id);
    assert_eq!(channel.state.active_branches.len(), 2);

    let c = spawn_branch_from_state(&mut channel.state, "think about C");
    match c {
        Err(AgentError::BranchLimitReached { channel_id, max }) => {
            assert_eq!(max, 2);
            assert_eq!(channel_id, "7");
        }
        other => panic!("expected BranchLimitReached, got {:?}", other),
    }
    assert_eq!(channel.state.active_branches.len(), 2);
}

#[test]
fn branch_spawn_records_status_entry() {
    let mut channel = test_channel(3);
    let spawn = spawn_branch_from_state(&mut channel.state, "ponder").unwrap();
    assert_eq!(channel.state.status_block.branches.len(), 1);
    assert_eq!(channel.state.status_block.branches[0].id, spawn.id);
    assert_eq!(channel.state.status_block.branches[0].label, "thinking...");
}

#[test]
fn branch_snapshot_is_insensitive_to_later_history_growth() {
    let mut channel = test_channel(5);
    channel.conversation_id = Some("conv-1".to_string());
    channel
        .state
        .history
        .push(Message { role: Role::User, text: "[alice]: hello".to_string() });

    let spawn = spawn_branch_from_state(&mut channel.state, "reflect").unwrap();
    assert_eq!(spawn.history_snapshot.len(), 1);
    assert_eq!(spawn.history_snapshot[0].text, "[alice]: hello");

    // The live history grows while the branch runs; the snapshot does not.
    channel
        .state
        .history
        .push(Message { role: Role::User, text: "[bob]: more".to_string() });
    assert_eq!(spawn.history_snapshot.len(), 1);

    let event = ProcessEvent::BranchResult {
        agent_id: "agent-1".to_string(),
        channel_id: ChannelId(7),
        branch_id: spawn.id,
        conclusion: "C".to_string(),
    };
    let retrigger = channel.handle_event(&event);

    // Exactly one entry is appended to the grown live history.
    assert_eq!(channel.state.history.len(), 3);
    assert_eq!(channel.state.history[2].text, "[Branch result]: C");
    assert!(channel.state.active_branches.is_empty());
    assert!(channel.state.status_block.branches.is_empty());
    let retrigger = retrigger.expect("a retrigger is due once the conversation id is known");
    assert_eq!(retrigger.source, "system");
    assert_eq!(retrigger.conversation_id, "conv-1");
    assert_eq!(retrigger.id.len(), 36);
}

#[test]
fn worker_complete_without_notify_removes_but_appends_nothing() {
    let mut channel = test_channel(5);
    channel.conversation_id = Some("conv-1".to_string());
    let spawn = spawn_worker_from_state(&mut channel.state, "do the thing", false, None).unwrap();
    assert_eq!(channel.state.active_workers, vec![spawn.id]);
    assert_eq!(channel.state.status_block.workers.len(), 1);

    let event = ProcessEvent::WorkerComplete {
        agent_id: "agent-1".to_string(),
        channel_id: Some(ChannelId(7)),
        worker_id: spawn.id,
        result: "done quietly".to_string(),
        notify: false,
    };
    let retrigger = channel.handle_event(&event);
    assert!(retrigger.is_none());
    assert!(channel.state.active_workers.is_empty());
    assert!(channel.state.status_block.workers.is_empty());
    assert!(channel.state.history.is_empty());
}

#[test]
fn worker_complete_with_notify_appends_and_retriggers() {
    let mut channel = test_channel(5);
    channel.conversation_id = Some("conv-9".to_string());
    let spawn = spawn_worker_from_state(&mut channel.state, "do the thing", false, None).unwrap();

    let event = ProcessEvent::WorkerComplete {
        agent_id: "agent-1".to_string(),
        channel_id: Some(ChannelId(7)),
        worker_id: spawn.id,
        result: "all done".to_string(),
        notify: true,
    };
    let retrigger = channel.handle_event(&event);
    assert_eq!(channel.state.history.len(), 1);
    assert_eq!(channel.state.history[0].text, "[Worker completed]: all done");
    let retrigger = retrigger.expect("notify completions retrigger the channel");
    assert_eq!(retrigger.sender_id, "system");
    assert_eq!(retrigger.conversation_id, "conv-9");
}

#[test]
fn events_for_other_channels_are_complete_no_ops() {
    let mut channel = test_channel(5);
    channel.conversation_id = Some("conv-1".to_string());
    let spawn = spawn_branch_from_state(&mut channel.state, "reflect").unwrap();
    let status_before = channel.get_status();

    let foreign_branch = ProcessEvent::BranchResult {
        agent_id: "agent-1".to_string(),
        channel_id: ChannelId(8),
        branch_id: spawn.id,
        conclusion: "C".to_string(),
    };
    assert!(channel.handle_event(&foreign_branch).is_none());
    assert_eq!(channel.state.active_branches, vec![spawn.id]);
    assert!(channel.state.history.is_empty());
    assert_eq!(channel.get_status(), status_before);

    let foreign_worker = ProcessEvent::WorkerComplete {
        agent_id: "agent-1".to_string(),
        channel_id: Some(ChannelId(8)),
        worker_id: WorkerId(0),
        result: "x".to_string(),
        notify: true,
    };
    assert!(channel.handle_event(&foreign_worker).is_none());
    assert!(channel.state.history.is_empty());

    let unscoped_worker = ProcessEvent::WorkerComplete {
        agent_id: "agent-1".to_string(),
        channel_id: None,
        worker_id: WorkerId(0),
        result: "x".to_string(),
        notify: true,
    };
    assert!(channel.handle_event(&unscoped_worker).is_none());
    assert!(channel.state.history.is_empty());
}

#[test]
fn passthrough_kinds_update_status_even_across_channels() {
    let mut channel = test_channel(5);
    let event = ProcessEvent::ToolStarted {
        agent_id: "agent-1".to_string(),
        process_id: spacebot::ids::ProcessId::Channel(ChannelId(99)),
        tool_name: "web_search".to_string(),
    };
    assert!(channel.handle_event(&event).is_none());
    assert_eq!(channel.state.status_block.last_tool.as_deref(), Some("web_search"));
    assert_eq!(channel.get_status(), "Last tool: web_search\n");
}

#[test]
fn no_retrigger_before_conversation_id_is_known() {
    let mut channel = test_channel(5);
    let spawn = spawn_branch_from_state(&mut channel.state, "reflect").unwrap();
    let event = ProcessEvent::BranchResult {
        agent_id: "agent-1".to_string(),
        channel_id: ChannelId(7),
        branch_id: spawn.id,
        conclusion: "C".to_string(),
    };
    assert!(channel.handle_event(&event).is_none());
    assert_eq!(channel.state.history.len(), 1);
}

#[test]
fn failed_worker_still_publishes_notify_completion() {
    let outcome: Result<String, String> = Err("disk exploded".to_string());
    let event = worker_completion_event("agent-1", Some(ChannelId(7)), WorkerId(3), &outcome);
    match event {
        ProcessEvent::WorkerComplete { worker_id, channel_id, result, notify, .. } => {
            assert_eq!(worker_id, WorkerId(3));
            assert_eq!(channel_id, Some(ChannelId(7)));
            assert!(notify);
            assert!(result.starts_with("Worker failed:"));
            assert_eq!(result, "Worker failed: disk exploded");
        }
        other => panic!("expected WorkerComplete, got {:?}", other),
    }
}

#[test]
fn successful_worker_publishes_its_result_text() {
    let outcome: Result<String, String> = Ok("summary ready".to_string());
    let event = worker_completion_event("agent-1", None, WorkerId(4), &outcome);
    match event {
        ProcessEvent::WorkerComplete { result, notify, channel_id, .. } => {
            assert!(notify);
            assert_eq!(result, "summary ready");
            assert_eq!(channel_id, None);
        }
        other => panic!("expected WorkerComplete, got {:?}", other),
    }
}

#[test]
fn worker_spawn_is_never_limited() {
    let mut channel = test_channel(1);
    let mut ids: Vec<WorkerId> = Vec::new();
    for i in 0..4 {
        let spawn =
            spawn_worker_from_state(&mut channel.state, &format!("task {i}"), i % 2 == 0, None)
                .unwrap();
        ids.push(spawn.id);
    }
    ids.dedup();
    assert_eq!(ids.len(), 4);
    assert_eq!(channel.state.active_workers.len(), 4);
}

#[test]
fn branch_ids_stay_distinct_after_completions() {
    let mut channel = test_channel(2);
    let a = spawn_branch_from_state(&mut channel.state, "a").unwrap();
    let _b = spawn_branch_from_state(&mut channel.state, "b").unwrap();
    let event = ProcessEvent::BranchResult {
        agent_id: "agent-1".to_string(),
        channel_id: ChannelId(7),
        branch_id: a.id,
        conclusion: "done".to_string(),
    };
    channel.handle_event(&event);
    // Room again: the next spawn succeeds and its id is fresh.
    let c = spawn_branch_from_state(&mut channel.state, "c").unwrap();
    assert_ne!(c.id, a.id);
    assert_eq!(channel.state.active_branches.len(), 2);
    assert_eq!(c.id, BranchId(2));
}

#[test]
fn worker_status_events_for_own_channel_change_nothing() {
    let mut channel = test_channel(5);
    let spawn = spawn_worker_from_state(&mut channel.state, "task", true, None).unwrap();
    let status_before = channel.get_status();
    let event = ProcessEvent::WorkerStatus {
        channel_id: Some(ChannelId(7)),
        worker_id: spawn.id,
        status: "halfway".to_string(),
    };
    assert!(channel.handle_event(&event).is_none());
    assert_eq!(channel.get_status(), status_before);
    assert_eq!(channel.state.active_workers, vec![spawn.id]);
}

#[test]
fn tool_completion_overwrites_the_last_tool_entry() {
    let mut channel = test_channel(5);
    let started = ProcessEvent::ToolStarted {
        agent_id: "agent-1".to_string(),
        process_id: spacebot::ids::ProcessId::Channel(ChannelId(7)),
        tool_name: "first".to_string(),
    };
    let completed = ProcessEvent::ToolCompleted {
        agent_id: "agent-1".to_string(),
        process_id: spacebot::ids::ProcessId::Channel(ChannelId(7)),
        tool_name: "second".to_string(),
        result: "ok".to_string(),
    };
    channel.handle_event(&started);
    channel.handle_event(&completed);
    assert_eq!(channel.get_status(), "Last tool: second\n");
}
