//! Configuration: the instance-level settings, per-agent overrides and
//! their resolution against defaults. Reading files and the environment is
//! the runtime's business; everything here takes plain, already-read values
//! and decides what the effective configuration is.

use vstd::prelude::*;

use crate::compaction::CompactionConfig;
use crate::text::starts_with_spec;
use crate::text::str_starts_with;

verus! {

/// A configuration error surfaced to the caller at load time.
#[derive(Debug)]
pub enum ConfigError {
    Invalid(String),
}

/// LLM provider credentials (instance-level).
#[derive(Clone, Debug)]
pub struct LlmConfig {
    pub anthropic_key: Option<String>,
    pub openai_key: Option<String>,
}

/// Cortex configuration.
#[derive(Clone, Copy, Debug, PartialEq, Eq, Structural)]
pub struct CortexConfig {
    pub tick_interval_secs: u64,
    pub worker_timeout_secs: u64,
    pub branch_timeout_secs: u64,
    pub circuit_breaker_threshold: u8,
}

impl Default for CortexConfig {
    fn default() -> (r: Self)
        ensures
            r == (CortexConfig {
                tick_interval_secs: 30u64,
                worker_timeout_secs: 300u64,
                branch_timeout_secs: 60u64,
                circuit_breaker_threshold: 3u8,
            }),
    {
        CortexConfig {
            tick_interval_secs: 30,
            worker_timeout_secs: 300,
            branch_timeout_secs: 60,
            circuit_breaker_threshold: 3,
        }
    }
}

/// Defaults inherited by all agents. Individual agents can override any
/// field.
#[derive(Clone, Debug)]
pub struct DefaultsConfig {
    pub channel_model: String,
    pub worker_model: String,
    pub cortex_model: String,
    pub max_concurrent_branches: usize,
    pub max_turns: usize,
    pub context_window: usize,
    pub compaction: CompactionConfig,
    pub cortex: CortexConfig,
}

/// The built-in model name used wherever nothing else is configured.
pub open spec fn default_model_name() -> Seq<char> {
    "anthropic/default-model"@
}

impl DefaultsConfig {
    /// The built-in defaults.
    pub open spec fn is_builtin(self) -> bool {
        &&& self.channel_model@ == default_model_name()
        &&& self.worker_model@ == default_model_name()
        &&& self.cortex_model@ == default_model_name()
        &&& self.max_concurrent_branches == 5
        &&& self.max_turns == 5
        &&& self.context_window == 128000
        &&& self.compaction == (CompactionConfig {
            background_threshold: 800u32,
            aggressive_threshold: 850u32,
            emergency_threshold: 950u32,
        })
        &&& self.cortex == (CortexConfig {
            tick_interval_secs: 30u64,
            worker_timeout_secs: 300u64,
            branch_timeout_secs: 60u64,
            circuit_breaker_threshold: 3u8,
        })
    }
}

impl Default for DefaultsConfig {
    fn default() -> (r: Self)
        ensures
            r.is_builtin(),
    {
        DefaultsConfig {
            channel_model: String::from_str("anthropic/default-model"),
            worker_model: String::from_str("anthropic/default-model"),
            cortex_model: String::from_str("anthropic/default-model"),
            max_concurrent_branches: 5,
            max_turns: 5,
            context_window: 128000,
            compaction: CompactionConfig::default(),
            cortex: CortexConfig::default(),
        }
    }
}

/// Per-agent configuration, raw: unset fields fall back to the defaults.
#[derive(Clone, Debug)]
pub struct AgentConfig {
    pub id: String,
    pub default: bool,
    /// Custom workspace path; when absent, resolved under the instance
    /// directory.
    pub workspace: Option<String>,
    pub channel_model: Option<String>,
    pub worker_model: Option<String>,
    pub cortex_model: Option<String>,
    pub max_concurrent_branches: Option<usize>,
    pub max_turns: Option<usize>,
    pub context_window: Option<usize>,
    pub compaction: Option<CompactionConfig>,
    pub cortex: Option<CortexConfig>,
}

/// Fully resolved agent configuration: merged with defaults, paths laid out
/// under the instance directory.
#[derive(Clone, Debug)]
pub struct ResolvedAgentConfig {
    pub id: String,
    pub workspace: String,
    pub data_dir: String,
    pub archives_dir: String,
    pub channel_model: String,
    pub worker_model: String,
    pub cortex_model: String,
    pub max_concurrent_branches: usize,
    pub max_turns: usize,
    pub context_window: usize,
    pub compaction: CompactionConfig,
    pub cortex: CortexConfig,
}

/// A path under a base directory.
pub open spec fn joined_path(base: Seq<char>, part: Seq<char>) -> Seq<char> {
    base + "/"@ + part
}

/// Join one path component onto a base path.
pub fn join_path(base: &str, part: &str) -> (r: String)
    ensures
        r@ == joined_path(base@, part@),
{
    let mut out = String::from_str(base);
    out.append("/");
    out.append(part);
    out
}

/// An optional override, or the inherited default.
pub open spec fn string_or(v: Option<String>, d: Seq<char>) -> Seq<char> {
    match v {
        Some(s) => s@,
        None => d,
    }
}

fn clone_string_or(v: &Option<String>, d: &String) -> (r: String)
    ensures
        r@ == string_or(*v, d@),
{
    match v {
        Some(s) => s.clone(),
        None => d.clone(),
    }
}

/// How a resolved agent configuration relates to its raw entry, the
/// instance directory and the defaults: overrides win field by field, and
/// the directories are laid out under `instance_dir`/agents/`id`.
pub open spec fn resolved_from(
    r: ResolvedAgentConfig,
    a: AgentConfig,
    instance_dir: Seq<char>,
    defaults: DefaultsConfig,
) -> bool {
    &&& r.id == a.id
    &&& r.workspace@ == (match a.workspace {
        Some(w) => w@,
        None => joined_path(
            joined_path(joined_path(instance_dir, "agents"@), a.id@),
            "workspace"@,
        ),
    })
    &&& r.data_dir@ == joined_path(
        joined_path(joined_path(instance_dir, "agents"@), a.id@),
        "data"@,
    )
    &&& r.archives_dir@ == joined_path(
        joined_path(joined_path(instance_dir, "agents"@), a.id@),
        "archives"@,
    )
    &&& r.channel_model@ == string_or(a.channel_model, defaults.channel_model@)
    &&& r.worker_model@ == string_or(a.worker_model, defaults.worker_model@)
    &&& r.cortex_model@ == string_or(a.cortex_model, defaults.cortex_model@)
    &&& r.max_concurrent_branches == (match a.max_concurrent_branches {
        Some(n) => n,
        None => defaults.max_concurrent_branches,
    })
    &&& r.max_turns == (match a.max_turns {
        Some(n) => n,
        None => defaults.max_turns,
    })
    &&& r.context_window == (match a.context_window {
        Some(n) => n,
        None => defaults.context_window,
    })
    &&& r.compaction == (match a.compaction {
        Some(c) => c,
        None => defaults.compaction,
    })
    &&& r.cortex == (match a.cortex {
        Some(c) => c,
        None => defaults.cortex,
    })
}

impl AgentConfig {
    /// Resolve this agent configuration against the instance defaults and
    /// the instance directory.
    pub fn resolve(&self, instance_dir: &str, defaults: &DefaultsConfig) -> (r:
        ResolvedAgentConfig)
        ensures
            resolved_from(r, *self, instance_dir@, *defaults),
    {
        let agent_root = join_path(join_path(instance_dir, "agents").as_str(), self.id.as_str());
        let workspace = match &self.workspace {
            Some(w) => w.clone(),
            None => join_path(agent_root.as_str(), "workspace"),
        };
        ResolvedAgentConfig {
            id: self.id.clone(),
            workspace,
            data_dir: join_path(agent_root.as_str(), "data"),
            archives_dir: join_path(agent_root.as_str(), "archives"),
            channel_model: clone_string_or(&self.channel_model, &defaults.channel_model),
            worker_model: clone_string_or(&self.worker_model, &defaults.worker_model),
            cortex_model: clone_string_or(&self.cortex_model, &defaults.cortex_model),
            max_concurrent_branches: match self.max_concurrent_branches {
                Some(n) => n,
                None => defaults.max_concurrent_branches,
            },
            max_turns: match self.max_turns {
                Some(n) => n,
                None => defaults.max_turns,
            },
            context_window: match self.context_window {
                Some(n) => n,
                None => defaults.context_window,
            },
            compaction: match self.compaction {
                Some(c) => c,
                None => defaults.compaction,
            },
            cortex: match self.cortex {
                Some(c) => c,
                None => defaults.cortex,
            },
        }
    }
}

impl ResolvedAgentConfig {
    /// The agent's sqlite database file.
    pub fn sqlite_path(&self) -> (r: String)
        ensures
            r@ == joined_path(self.data_dir@, "spacebot.db"@),
    {
        join_path(self.data_dir.as_str(), "spacebot.db")
    }

    /// The agent's vector-store directory.
    pub fn lancedb_path(&self) -> (r: String)
        ensures
            r@ == joined_path(self.data_dir@, "lancedb"@),
    {
        join_path(self.data_dir.as_str(), "lancedb")
    }

    /// The agent's runtime-configuration store.
    pub fn redb_path(&self) -> (r: String)
        ensures
            r@ == joined_path(self.data_dir@, "config.redb"@),
    {
        join_path(self.data_dir.as_str(), "config.redb")
    }
}

/// Routes a messaging platform conversation to a specific agent.
#[derive(Clone, Debug)]
pub struct Binding {
    pub agent_id: String,
    pub channel: String,
    pub guild_id: Option<String>,
    pub chat_id: Option<String>,
}

/// Discord credentials.
#[derive(Clone, Debug)]
pub struct DiscordConfig {
    pub enabled: bool,
    pub token: String,
}

/// Webhook listener settings.
#[derive(Clone, Debug)]
pub struct WebhookConfig {
    pub enabled: bool,
    pub port: u16,
    pub bind: String,
}

/// Messaging platform credentials (instance-level).
#[derive(Clone, Debug)]
pub struct MessagingConfig {
    pub discord: Option<DiscordConfig>,
    pub webhook: Option<WebhookConfig>,
}

/// The port a webhook listener binds when none is configured.
pub fn default_webhook_port() -> (r: u16)
    ensures
        r == 18789,
{
    18789
}

/// The address a webhook listener binds when none is configured.
pub fn default_webhook_bind() -> (r: String)
    ensures
        r@ == "127.0.0.1"@,
{
    String::from_str("127.0.0.1")
}

/// Top-level configuration of one instance.
#[derive(Clone, Debug)]
pub struct Config {
    /// Instance root directory.
    pub instance_dir: String,
    /// LLM provider credentials, shared across all agents.
    pub llm: LlmConfig,
    /// Default settings inherited by all agents.
    pub defaults: DefaultsConfig,
    /// Agent definitions.
    pub agents: Vec<AgentConfig>,
    /// Messaging platform credentials.
    pub messaging: MessagingConfig,
    /// Routing bindings, mapping platform conversations to agents.
    pub bindings: Vec<Binding>,
}

/// The name of the environment variable a value of the form "env:NAME"
/// refers to; None for a plain value, which stands for itself.
pub fn env_reference(value: &str) -> (r: Option<String>)
    ensures
        starts_with_spec(value@, "env:"@) ==> (r matches Some(name) && name@ == value@.subrange(
            4,
            value@.len() as int,
        )),
        !starts_with_spec(value@, "env:"@) ==> r is None,
{
    if str_starts_with(value, "env:") {
        proof {
            reveal_strlit("env:");
        }
        let name = value.substring_char(4, value.unicode_len());
        Some(String::from_str(name))
    } else {
        None
    }
}

impl Config {
    /// Get the default agent id: the first agent marked default, or "main".
    pub fn default_agent_id(&self) -> (r: &str)
        ensures
            (exists|i: int|
                0 <= i < self.agents@.len() && (#[trigger] self.agents@[i]).default) ==> ({
                let first = choose|i: int|
                    0 <= i < self.agents@.len() && (#[trigger] self.agents@[i]).default
                        && forall|j: int| 0 <= j < i ==> !(#[trigger] self.agents@[j]).default;
                r@ == self.agents@[first].id@
            }),
            !(exists|i: int|
                0 <= i < self.agents@.len() && (#[trigger] self.agents@[i]).default) ==> r@
                == "main"@,
    {
        let n = self.agents.len();
        let mut i: usize = 0;
        while i < n
            invariant
                0 <= i <= n,
                n == self.agents@.len(),
                forall|j: int| 0 <= j < i ==> !(#[trigger] self.agents@[j]).default,
            decreases n - i,
        {
            if self.agents[i].default {
                proof {
                    let first = choose|k: int|
                        0 <= k < self.agents@.len() && (#[trigger] self.agents@[k]).default
                            && forall|j: int| 0 <= j < k ==> !(#[trigger] self.agents@[j]).default;
                    assert(self.agents@[i as int].default);
                    assert(first == i as int);
                }
                return self.agents[i].id.as_str();
            }
            i = i + 1;
        }
        "main"
    }

    /// Resolve every agent configuration against the instance defaults.
    pub fn resolve_agents(&self) -> (r: Vec<ResolvedAgentConfig>)
        ensures
            r@.len() == self.agents@.len(),
            forall|i: int|
                0 <= i < r@.len() ==> resolved_from(
                    #[trigger] r@[i],
                    self.agents@[i],
                    self.instance_dir@,
                    self.defaults,
                ),
    {
        let n = self.agents.len();
        let mut out: Vec<ResolvedAgentConfig> = Vec::new();
        let mut i: usize = 0;
        while i < n
            invariant
                0 <= i <= n,
                n == self.agents@.len(),
                out@.len() == i,
                forall|k: int|
                    0 <= k < i ==> resolved_from(
                        #[trigger] out@[k],
                        self.agents@[k],
                        self.instance_dir@,
                        self.defaults,
                    ),
            decreases n - i,
        {
            let resolved = self.agents[i].resolve(self.instance_dir.as_str(), &self.defaults);
            out.push(resolved);
            i = i + 1;
        }
        out
    }

    /// The shared prompts directory of the instance.
    pub fn prompts_dir(&self) -> (r: String)
        ensures
            r@ == joined_path(self.instance_dir@, "prompts"@),
    {
        join_path(self.instance_dir.as_str(), "prompts")
    }
}


/// Raw compaction thresholds as read from configuration, in per-mille.
#[derive(Clone, Copy, Debug, PartialEq, Eq, Structural)]
pub struct RawCompaction {
    pub background_threshold: Option<u32>,
    pub aggressive_threshold: Option<u32>,
    pub emergency_threshold: Option<u32>,
}

/// Raw cortex settings as read from configuration.
#[derive(Clone, Copy, Debug, PartialEq, Eq, Structural)]
pub struct RawCortex {
    pub tick_interval_secs: Option<u64>,
    pub worker_timeout_secs: Option<u64>,
    pub branch_timeout_secs: Option<u64>,
    pub circuit_breaker_threshold: Option<u8>,
}

/// Raw instance-level credentials, with any environment references already
/// resolved by the runtime.
#[derive(Clone, Debug)]
pub struct RawLlm {
    pub anthropic_key: Option<String>,
    pub openai_key: Option<String>,
}

/// Raw defaults section.
#[derive(Clone, Debug)]
pub struct RawDefaults {
    pub channel_model: Option<String>,
    pub worker_model: Option<String>,
    pub cortex_model: Option<String>,
    pub max_concurrent_branches: Option<usize>,
    pub max_turns: Option<usize>,
    pub context_window: Option<usize>,
    pub compaction: Option<RawCompaction>,
    pub cortex: Option<RawCortex>,
}

/// Raw agent entry.
#[derive(Clone, Debug)]
pub struct RawAgent {
    pub id: String,
    pub default: bool,
    pub workspace: Option<String>,
    pub channel_model: Option<String>,
    pub worker_model: Option<String>,
    pub cortex_model: Option<String>,
    pub max_concurrent_branches: Option<usize>,
    pub max_turns: Option<usize>,
    pub context_window: Option<usize>,
}

/// Raw Discord credentials; the token, when present, is already resolved.
#[derive(Clone, Debug)]
pub struct RawDiscord {
    pub enabled: bool,
    pub token: Option<String>,
}

/// Raw webhook settings.
#[derive(Clone, Debug)]
pub struct RawWebhook {
    pub enabled: bool,
    pub port: u16,
    pub bind: String,
}

/// Raw messaging section.
#[derive(Clone, Debug)]
pub struct RawMessaging {
    pub discord: Option<RawDiscord>,
    pub webhook: Option<RawWebhook>,
}

/// Raw binding entry.
#[derive(Clone, Debug)]
pub struct RawBinding {
    pub agent_id: String,
    pub channel: String,
    pub guild_id: Option<String>,
    pub chat_id: Option<String>,
}

/// Everything a configuration source yields, as plain values.
#[derive(Clone, Debug)]
pub struct RawConfig {
    pub llm: RawLlm,
    pub defaults: RawDefaults,
    pub agents: Vec<RawAgent>,
    pub messaging: RawMessaging,
    pub bindings: Vec<RawBinding>,
}

/// The message of the error raised when no provider key is configured.
pub open spec fn no_llm_key_message() -> Seq<char> {
    "no LLM provider API key found — set ANTHROPIC_API_KEY or OPENAI_API_KEY"@
}

/// The agent entry used when a configuration names none: a single agent
/// "main", marked default, with no overrides.
pub open spec fn is_main_agent(a: AgentConfig) -> bool {
    &&& a.id@ == "main"@
    &&& a.default
    &&& a.workspace is None
    &&& a.channel_model is None
    &&& a.worker_model is None
    &&& a.cortex_model is None
    &&& a.max_concurrent_branches is None
    &&& a.max_turns is None
    &&& a.context_window is None
    &&& a.compaction is None
    &&& a.cortex is None
}

fn main_agent() -> (a: AgentConfig)
    ensures
        is_main_agent(a),
{
    AgentConfig {
        id: String::from_str("main"),
        default: true,
        workspace: None,
        channel_model: None,
        worker_model: None,
        cortex_model: None,
        max_concurrent_branches: None,
        max_turns: None,
        context_window: None,
        compaction: None,
        cortex: None,
    }
}

/// How a raw agent entry maps into an agent configuration: field for field,
/// with the default flag decided separately.
pub open spec fn agent_from_raw(a: AgentConfig, raw: RawAgent, default: bool) -> bool {
    &&& a.id == raw.id
    &&& a.default == default
    &&& a.workspace == raw.workspace
    &&& a.channel_model == raw.channel_model
    &&& a.worker_model == raw.worker_model
    &&& a.cortex_model == raw.cortex_model
    &&& a.max_concurrent_branches == raw.max_concurrent_branches
    &&& a.max_turns == raw.max_turns
    &&& a.context_window == raw.context_window
    &&& a.compaction is None
    &&& a.cortex is None
}

fn clone_opt_string(v: &Option<String>) -> (r: Option<String>)
    ensures
        r == *v,
{
    match v {
        Some(s) => Some(s.clone()),
        None => None,
    }
}

impl Config {
    /// Assemble the effective configuration from raw, already-read parts.
    ///
    /// Fails exactly when neither provider key is present. Defaults fall
    /// back field by field to the built-in defaults; a configuration
    /// without agents gets the single agent "main"; when no agent is marked
    /// default, the first one becomes it. Discord credentials without a
    /// token are dropped.
    pub fn from_parts(raw: RawConfig, instance_dir: String) -> (r: Result<Config, ConfigError>)
        ensures
            (raw.llm.anthropic_key is None && raw.llm.openai_key is None) <==> (
            r matches Err(ConfigError::Invalid(m)) && m@ == no_llm_key_message()),
            (raw.llm.anthropic_key is Some || raw.llm.openai_key is Some) ==> (
            r matches Ok(c) && {
                &&& c.instance_dir == instance_dir
                &&& c.llm.anthropic_key == raw.llm.anthropic_key
                &&& c.llm.openai_key == raw.llm.openai_key
                &&& c.defaults.channel_model@ == string_or(
                    raw.defaults.channel_model,
                    default_model_name(),
                )
                &&& c.defaults.worker_model@ == string_or(
                    raw.defaults.worker_model,
                    default_model_name(),
                )
                &&& c.defaults.cortex_model@ == string_or(
                    raw.defaults.cortex_model,
                    default_model_name(),
                )
                &&& c.defaults.max_concurrent_branches == (match raw
                    .defaults
                    .max_concurrent_branches {
                    Some(n) => n,
                    None => 5,
                })
                &&& c.defaults.max_turns == (match raw.defaults.max_turns {
                    Some(n) => n,
                    None => 5,
                })
                &&& c.defaults.context_window == (match raw.defaults.context_window {
                    Some(n) => n,
                    None => 128000,
                })
                &&& c.defaults.compaction == (match raw.defaults.compaction {
                    Some(rc) => CompactionConfig {
                        background_threshold: (match rc.background_threshold {
                            Some(t) => t,
                            None => 800,
                        }),
                        aggressive_threshold: (match rc.aggressive_threshold {
                            Some(t) => t,
                            None => 850,
                        }),
                        emergency_threshold: (match rc.emergency_threshold {
                            Some(t) => t,
                            None => 950,
                        }),
                    },
                    None => CompactionConfig {
                        background_threshold: 800u32,
                        aggressive_threshold: 850u32,
                        emergency_threshold: 950u32,
                    },
                })
                &&& c.defaults.cortex == (match raw.defaults.cortex {
                    Some(rc) => CortexConfig {
                        tick_interval_secs: (match rc.tick_interval_secs {
                            Some(t) => t,
                            None => 30,
                        }),
                        worker_timeout_secs: (match rc.worker_timeout_secs {
                            Some(t) => t,
                            None => 300,
                        }),
                        branch_timeout_secs: (match rc.branch_timeout_secs {
                            Some(t) => t,
                            None => 60,
                        }),
                        circuit_breaker_threshold: (match rc.circuit_breaker_threshold {
                            Some(t) => t,
                            None => 3,
                        }),
                    },
                    None => CortexConfig {
                        tick_interval_secs: 30u64,
                        worker_timeout_secs: 300u64,
                        branch_timeout_secs: 60u64,
                        circuit_breaker_threshold: 3u8,
                    },
                })
                &&& (raw.agents@.len() == 0 ==> c.agents@.len() == 1 && is_main_agent(
                    c.agents@[0],
                ))
                &&& (raw.agents@.len() > 0 ==> {
                    &&& c.agents@.len() == raw.agents@.len()
                    &&& (exists|i: int|
                        0 <= i < raw.agents@.len() && (#[trigger] raw.agents@[i]).default)
                        ==> forall|i: int|
                        0 <= i < c.agents@.len() ==> agent_from_raw(
                            #[trigger] c.agents@[i],
                            raw.agents@[i],
                            raw.agents@[i].default,
                        )
                    &&& !(exists|i: int|
                        0 <= i < raw.agents@.len() && (#[trigger] raw.agents@[i]).default)
                        ==> forall|i: int|
                        0 <= i < c.agents@.len() ==> agent_from_raw(
                            #[trigger] c.agents@[i],
                            raw.agents@[i],
                            i == 0 || raw.agents@[i].default,
                        )
                })
                &&& c.messaging.discord == (match raw.messaging.discord {
                    Some(d) => match d.token {
                        Some(t) => Some(DiscordConfig { enabled: d.enabled, token: t }),
                        None => None,
                    },
                    None => None,
                })
                &&& c.messaging.webhook == (match raw.messaging.webhook {
                    Some(w) => Some(WebhookConfig { enabled: w.enabled, port: w.port, bind: w.bind }),
                    None => None,
                })
                &&& c.bindings@.len() == raw.bindings@.len()
                &&& forall|i: int|
                    0 <= i < c.bindings@.len() ==> (#[trigger] c.bindings@[i]).agent_id
                        == raw.bindings@[i].agent_id && c.bindings@[i].channel
                        == raw.bindings@[i].channel && c.bindings@[i].guild_id
                        == raw.bindings@[i].guild_id && c.bindings@[i].chat_id
                        == raw.bindings@[i].chat_id
            }),
    {
        if raw.llm.anthropic_key.is_none() && raw.llm.openai_key.is_none() {
            return Err(
                ConfigError::Invalid(
                    String::from_str(
                        "no LLM provider API key found — set ANTHROPIC_API_KEY or OPENAI_API_KEY",
                    ),
                ),
            );
        }
        let base = DefaultsConfig::default();
        let defaults = DefaultsConfig {
            channel_model: clone_string_or(&raw.defaults.channel_model, &base.channel_model),
            worker_model: clone_string_or(&raw.defaults.worker_model, &base.worker_model),
            cortex_model: clone_string_or(&raw.defaults.cortex_model, &base.cortex_model),
            max_concurrent_branches: match raw.defaults.max_concurrent_branches {
                Some(n) => n,
                None => base.max_concurrent_branches,
            },
            max_turns: match raw.defaults.max_turns {
                Some(n) => n,
                None => base.max_turns,
            },
            context_window: match raw.defaults.context_window {
                Some(n) => n,
                None => base.context_window,
            },
            compaction: match raw.defaults.compaction {
                Some(rc) => CompactionConfig {
                    background_threshold: match rc.background_threshold {
                        Some(t) => t,
                        None => base.compaction.background_threshold,
                    },
                    aggressive_threshold: match rc.aggressive_threshold {
                        Some(t) => t,
                        None => base.compaction.aggressive_threshold,
                    },
                    emergency_threshold: match rc.emergency_threshold {
                        Some(t) => t,
                        None => base.compaction.emergency_threshold,
                    },
                },
                None => base.compaction,
            },
            cortex: match raw.defaults.cortex {
                Some(rc) => CortexConfig {
                    tick_interval_secs: match rc.tick_interval_secs {
                        Some(t) => t,
                        None => base.cortex.tick_interval_secs,
                    },
                    worker_timeout_secs: match rc.worker_timeout_secs {
                        Some(t) => t,
                        None => base.cortex.worker_timeout_secs,
                    },
                    branch_timeout_secs: match rc.branch_timeout_secs {
                        Some(t) => t,
                        None => base.cortex.branch_timeout_secs,
                    },
                    circuit_breaker_threshold: match rc.circuit_breaker_threshold {
                        Some(t) => t,
                        None => base.cortex.circuit_breaker_threshold,
                    },
                },
                None => base.cortex,
            },
        };
        let mut agents: Vec<AgentConfig> = Vec::new();
        let raw_n = raw.agents.len();
        let mut has_default = false;
        let mut i: usize = 0;
        while i < raw_n
            invariant
                0 <= i <= raw_n,
                raw_n == raw.agents@.len(),
                agents@.len() == i,
                forall|k: int|
                    0 <= k < i ==> agent_from_raw(
                        #[trigger] agents@[k],
                        raw.agents@[k],
                        raw.agents@[k].default,
                    ),
                has_default == exists|k: int|
                    0 <= k < i && (#[trigger] raw.agents@[k]).default,
            decreases raw_n - i,
        {
            let a = &raw.agents[i];
            if a.default {
                has_default = true;
            }
            agents.push(
                AgentConfig {
                    id: a.id.clone(),
                    default: a.default,
                    workspace: clone_opt_string(&a.workspace),
                    channel_model: clone_opt_string(&a.channel_model),
                    worker_model: clone_opt_string(&a.worker_model),
                    cortex_model: clone_opt_string(&a.cortex_model),
                    max_concurrent_branches: a.max_concurrent_branches,
                    max_turns: a.max_turns,
                    context_window: a.context_window,
                    compaction: None,
                    cortex: None,
                },
            );
            i = i + 1;
        }
        if agents.len() == 0 {
            agents.push(main_agent());
        } else if !has_default {
            let mut first = agents.remove(0);
            first.default = true;
            agents.insert(0, first);
        }
        let messaging = MessagingConfig {
            discord: match &raw.messaging.discord {
                Some(d) => match &d.token {
                    Some(t) => Some(DiscordConfig { enabled: d.enabled, token: t.clone() }),
                    None => None,
                },
                None => None,
            },
            webhook: match &raw.messaging.webhook {
                Some(w) => Some(
                    WebhookConfig { enabled: w.enabled, port: w.port, bind: w.bind.clone() },
                ),
                None => None,
            },
        };
        let mut bindings: Vec<Binding> = Vec::new();
        let bind_n = raw.bindings.len();
        let mut j: usize = 0;
        while j < bind_n
            invariant
                0 <= j <= bind_n,
                bind_n == raw.bindings@.len(),
                bindings@.len() == j,
                forall|k: int|
                    0 <= k < j ==> (#[trigger] bindings@[k]).agent_id == raw.bindings@[k].agent_id
                        && bindings@[k].channel == raw.bindings@[k].channel && bindings@[k].guild_id
                        == raw.bindings@[k].guild_id && bindings@[k].chat_id
                        == raw.bindings@[k].chat_id,
            decreases bind_n - j,
        {
            let b = &raw.bindings[j];
            bindings.push(
                Binding {
                    agent_id: b.agent_id.clone(),
                    channel: b.channel.clone(),
                    guild_id: clone_opt_string(&b.guild_id),
                    chat_id: clone_opt_string(&b.chat_id),
                },
            );
            j = j + 1;
        }
        Ok(
            Config {
                instance_dir,
                llm: LlmConfig {
                    anthropic_key: clone_opt_string(&raw.llm.anthropic_key),
                    openai_key: clone_opt_string(&raw.llm.openai_key),
                },
                defaults,
                agents,
                messaging,
                bindings,
            },
        )
    }

    /// Assemble a configuration from environment values alone: the built-in
    /// defaults, a single agent "main" carrying any model overrides, and no
    /// messaging credentials. Fails exactly when neither provider key is
    /// set.
    pub fn from_env_values(
        instance_dir: &str,
        anthropic_key: Option<String>,
        openai_key: Option<String>,
        channel_model: Option<String>,
        worker_model: Option<String>,
    ) -> (r: Result<Config, ConfigError>)
        ensures
            (anthropic_key is None && openai_key is None) <==> (
            r matches Err(ConfigError::Invalid(m)) && m@ == no_llm_key_message()),
            (anthropic_key is Some || openai_key is Some) ==> (r matches Ok(c) && {
                &&& c.instance_dir@ == instance_dir@
                &&& c.llm.anthropic_key == anthropic_key
                &&& c.llm.openai_key == openai_key
                &&& c.defaults.is_builtin()
                &&& c.agents@.len() == 1
                &&& c.agents@[0].id@ == "main"@
                &&& c.agents@[0].default
                &&& c.agents@[0].channel_model == channel_model
                &&& c.agents@[0].worker_model == worker_model
                &&& c.agents@[0].workspace is None
                &&& c.agents@[0].cortex_model is None
                &&& c.messaging.discord is None
                &&& c.messaging.webhook is None
                &&& c.bindings@.len() == 0
            }),
    {
        if anthropic_key.is_none() && openai_key.is_none() {
            return Err(
                ConfigError::Invalid(
                    String::from_str(
                        "no LLM provider API key found — set ANTHROPIC_API_KEY or OPENAI_API_KEY",
                    ),
                ),
            );
        }
        let mut agents: Vec<AgentConfig> = Vec::new();
        agents.push(
            AgentConfig {
                id: String::from_str("main"),
                default: true,
                workspace: None,
                channel_model,
                worker_model,
                cortex_model: None,
                max_concurrent_branches: None,
                max_turns: None,
                context_window: None,
                compaction: None,
                cortex: None,
            },
        );
        Ok(
            Config {
                instance_dir: String::from_str(instance_dir),
                llm: LlmConfig { anthropic_key, openai_key },
                defaults: DefaultsConfig::default(),
                agents,
                messaging: MessagingConfig { discord: None, webhook: None },
                bindings: Vec::new(),
            },
        )
    }
}

} // verus!
