//! Configuration assembly, agent resolution and the global-settings
//! read/update decisions.

use spacebot::config::{
    default_webhook_bind, default_webhook_port, env_reference, AgentConfig, Config, ConfigError,
    DefaultsConfig, RawAgent, RawConfig, RawDefaults, RawDiscord, RawLlm, RawMessaging,
    RawWebhook,
};
use spacebot::settings::{
    plan_global_settings_update, read_global_settings, BraveKeyEdit, GlobalSettingsUpdate,
    TomlEntry, TomlValue,
};

fn raw_agent(id: &str, default: bool) -> RawAgent {
    RawAgent {
        id: id.to_string(),
        default,
        workspace: None,
        channel_model: None,
        worker_model: None,
        cortex_model: None,
        max_concurrent_branches: None,
        max_turns: None,
        context_window: None,
    }
}

fn empty_raw(llm: RawLlm) -> RawConfig {
    RawConfig {
        llm,
        defaults: RawDefaults {
            channel_model: None,
            worker_model: None,
            cortex_model: None,
            max_concurrent_branches: None,
            max_turns: None,
            context_window: None,
            compaction: None,
            cortex: None,
        },
        agents: Vec::new(),
        messaging: RawMessaging { discord: None, webhook: None },
        bindings: Vec::new(),
    }
}

#[test]
fn missing_provider_keys_fail_loading() {
    let raw = empty_raw(RawLlm { anthropic_key: None, openai_key: None });
    match Config::from_parts(raw, "/tmp/instance".to_string()) {
        Err(ConfigError::Invalid(m)) => {
            assert_eq!(
                m,
                "no LLM provider API key found — set ANTHROPIC_API_KEY or OPENAI_API_KEY"
            );
        }
        Ok(_) => panic!("expected the missing-key error"),
    }
}

#[test]
fn empty_agent_list_gets_the_main_agent() {
    let raw = empty_raw(RawLlm {
        anthropic_key: Some("SECRET-REDACTED".to_string()),
        openai_key: None,
    });
    let config = Config::from_parts(raw, "/tmp/instance".to_string()).unwrap();
    assert_eq!(config.agents.len(), 1);
    assert_eq!(config.agents[0].id, "main");
    assert!(config.agents[0].default);
    assert_eq!(config.default_agent_id(), "main");
    assert_eq!(config.defaults.max_concurrent_branches, 5);
    assert_eq!(config.defaults.context_window, 128_000);
}

#[test]
fn first_agent_becomes_default_when_none_is_marked() {
    let mut raw = empty_raw(RawLlm {
        anthropic_key: Some("SECRET-REDACTED".to_string()),
        openai_key: None,
    });
    raw.agents = vec![raw_agent("alpha", false), raw_agent("beta", false)];
    let config = Config::from_parts(raw, "/tmp".to_string()).unwrap();
    assert!(config.agents[0].default);
    assert!(!config.agents[1].default);
    assert_eq!(config.default_agent_id(), "alpha");
}

#[test]
fn discord_credentials_without_a_token_are_dropped() {
    let mut raw = empty_raw(RawLlm {
        anthropic_key: Some("SECRET-REDACTED".to_string()),
        openai_key: None,
    });
    raw.messaging.discord = Some(RawDiscord { enabled: true, token: None });
    raw.messaging.webhook = Some(RawWebhook {
        enabled: true,
        port: default_webhook_port(),
        bind: default_webhook_bind(),
    });
    let config = Config::from_parts(raw, "/tmp".to_string()).unwrap();
    assert!(config.messaging.discord.is_none());
    let webhook = config.messaging.webhook.unwrap();
    assert_eq!(webhook.port, 18789);
    assert_eq!(webhook.bind, "127.0.0.1");
}

#[test]
fn agent_resolution_lays_out_paths_and_merges_defaults() {
    let defaults = DefaultsConfig::default();
    let agent = AgentConfig {
        id: "main".to_string(),
        default: true,
        workspace: None,
        channel_model: Some("override-model".to_string()),
        worker_model: None,
        cortex_model: None,
        max_concurrent_branches: Some(9),
        max_turns: None,
        context_window: None,
        compaction: None,
        cortex: None,
    };
    let resolved = agent.resolve("/data/instance", &defaults);
    assert_eq!(resolved.workspace, "/data/instance/agents/main/workspace");
    assert_eq!(resolved.data_dir, "/data/instance/agents/main/data");
    assert_eq!(resolved.archives_dir, "/data/instance/agents/main/archives");
    assert_eq!(resolved.sqlite_path(), "/data/instance/agents/main/data/spacebot.db");
    assert_eq!(resolved.lancedb_path(), "/data/instance/agents/main/data/lancedb");
    assert_eq!(resolved.redb_path(), "/data/instance/agents/main/data/config.redb");
    assert_eq!(resolved.channel_model, "override-model");
    assert_eq!(resolved.worker_model, defaults.worker_model);
    assert_eq!(resolved.max_concurrent_branches, 9);
    assert_eq!(resolved.max_turns, 5);
}

#[test]
fn from_env_values_builds_the_single_main_agent() {
    let config = Config::from_env_values(
        "/home/me/.spacebot",
        None,
        Some("SECRET-REDACTED".to_string()),
        Some("env-model".to_string()),
        None,
    )
    .unwrap();
    assert_eq!(config.agents.len(), 1);
    assert_eq!(config.agents[0].channel_model.as_deref(), Some("env-model"));
    assert!(config.messaging.discord.is_none());
    assert!(config.bindings.is_empty());
    assert_eq!(config.prompts_dir(), "/home/me/.spacebot/prompts");

    assert!(Config::from_env_values("/x", None, None, None, None).is_err());
}

#[test]
fn env_references_name_their_variable() {
    assert_eq!(env_reference("env:BRAVE_KEY").as_deref(), Some("BRAVE_KEY"));
    assert!(env_reference("plain-value").is_none());
}

fn table(entries: Vec<(&str, TomlValue)>) -> TomlValue {
    TomlValue::Table(
        entries
            .into_iter()
            .map(|(k, value)| TomlEntry { key: k.to_string(), value })
            .collect(),
    )
}

#[test]
fn settings_read_as_defaults_from_an_empty_document() {
    let settings = read_global_settings(&Vec::new());
    assert!(settings.brave_search_key.is_none());
    assert!(settings.api_enabled);
    assert_eq!(settings.api_port, 19898);
    assert_eq!(settings.api_bind, "127.0.0.1");
    assert_eq!(settings.worker_log_mode, "errors_only");
    assert!(!settings.opencode.enabled);
    assert_eq!(settings.opencode.path, "opencode");
    assert_eq!(settings.opencode.max_servers, 5);
    assert_eq!(settings.opencode.permissions.edit, "allow");
    assert!(settings.memory_injection.enabled);
    assert_eq!(settings.memory_injection.search_limit, 20);
    assert_eq!(settings.memory_injection.contextual_min_score_milli, 10);
    assert_eq!(settings.memory_injection.semantic_threshold_milli, 850);
    assert_eq!(settings.memory_injection.pinned_sort, "recent");
    assert_eq!(settings.memory_injection.max_total, 25);
}

#[test]
fn settings_read_configured_values_with_range_checks() {
    let doc = vec![
        TomlEntry {
            key: "api".to_string(),
            value: table(vec![
                ("enabled", TomlValue::Bool(false)),
                ("port", TomlValue::Int(8080)),
                ("bind", TomlValue::Str("0.0.0.0".to_string())),
            ]),
        },
        TomlEntry {
            key: "defaults".to_string(),
            value: table(vec![
                ("worker_log_mode", TomlValue::Str("all_combined".to_string())),
                ("brave_search_key", TomlValue::Str("env:BRAVE".to_string())),
                (
                    "memory_injection",
                    table(vec![
                        ("semantic_threshold", TomlValue::FloatMilli(900)),
                        ("pinned_types", TomlValue::StrList(vec!["fact".to_string()])),
                        ("search_limit", TomlValue::Int(-3)),
                    ]),
                ),
            ]),
        },
    ];
    let settings = read_global_settings(&doc);
    assert!(!settings.api_enabled);
    assert_eq!(settings.api_port, 8080);
    assert_eq!(settings.api_bind, "0.0.0.0");
    assert_eq!(settings.worker_log_mode, "all_combined");
    assert_eq!(settings.brave_search_key.as_deref(), Some("env:BRAVE"));
    assert_eq!(settings.memory_injection.semantic_threshold_milli, 900);
    assert_eq!(settings.memory_injection.pinned_types, vec!["fact".to_string()]);
    // Out-of-range integers fall back to the default.
    assert_eq!(settings.memory_injection.search_limit, 20);
}

#[test]
fn out_of_range_port_falls_back() {
    let doc = vec![TomlEntry {
        key: "api".to_string(),
        value: table(vec![("port", TomlValue::Int(70000))]),
    }];
    assert_eq!(read_global_settings(&doc).api_port, 19898);
}

fn empty_update() -> GlobalSettingsUpdate {
    GlobalSettingsUpdate {
        brave_search_key: None,
        api_enabled: None,
        api_port: None,
        api_bind: None,
        worker_log_mode: None,
        opencode: None,
        memory_injection: None,
    }
}

#[test]
fn invalid_worker_log_mode_rejects_the_whole_update() {
    let request = GlobalSettingsUpdate {
        worker_log_mode: Some("verbose".to_string()),
        api_port: Some(9),
        ..empty_update()
    };
    let plan = plan_global_settings_update(request);
    assert!(!plan.response.success);
    assert!(!plan.response.requires_restart);
    assert_eq!(plan.response.message, "Invalid worker log mode: verbose");
    assert!(plan.api_port.is_none());
    assert!(plan.worker_log_mode.is_none());
}

#[test]
fn api_changes_require_a_restart() {
    let request = GlobalSettingsUpdate { api_enabled: Some(false), ..empty_update() };
    let plan = plan_global_settings_update(request);
    assert!(plan.response.success);
    assert!(plan.response.requires_restart);
    assert_eq!(
        plan.response.message,
        "Settings updated. API server changes require a restart to take effect."
    );
    assert_eq!(plan.api_enabled, Some(false));
}

#[test]
fn empty_search_key_clears_and_nonempty_stores() {
    let clear = plan_global_settings_update(GlobalSettingsUpdate {
        brave_search_key: Some("".to_string()),
        ..empty_update()
    });
    assert!(clear.response.success);
    assert!(!clear.response.requires_restart);
    assert_eq!(clear.response.message, "Settings updated successfully.");
    assert!(matches!(clear.brave_search_key, Some(BraveKeyEdit::Clear)));

    let store = plan_global_settings_update(GlobalSettingsUpdate {
        brave_search_key: Some("SECRET-REDACTED".to_string()),
        worker_log_mode: Some("all_separate".to_string()),
        ..empty_update()
    });
    match store.brave_search_key {
        Some(BraveKeyEdit::Store(v)) => assert_eq!(v, "SECRET-REDACTED"),
        other => panic!("expected a stored key, got {:?}", other),
    }
    assert_eq!(store.worker_log_mode.as_deref(), Some("all_separate"));
}
