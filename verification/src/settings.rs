//! Global settings: reading the effective instance settings out of a
//! configuration document, and planning updates to it. The runtime owns the
//! document itself (reading, format-preserving editing, writing); this
//! module decides what the settings are and which edits an update request
//! amounts to.
//!
//! The document is modelled as nested tables of plain values; fractional
//! settings are carried in thousandths, so every decision is exact integer
//! arithmetic.

use vstd::prelude::*;

verus! {

/// One key/value entry of a modelled configuration table.
#[derive(Debug)]
pub struct TomlEntry {
    pub key: String,
    pub value: TomlValue,
}

/// One value of the modelled configuration document. Fractional values are
/// carried in thousandths; an array is carried as its string elements.
#[derive(Debug)]
pub enum TomlValue {
    Bool(bool),
    Int(i64),
    FloatMilli(i64),
    Str(String),
    StrList(Vec<String>),
    Table(Vec<TomlEntry>),
}

/// First-match lookup in a table's entries.
pub open spec fn table_get(entries: Seq<TomlEntry>, key: Seq<char>) -> Option<
    TomlValue,
>
    decreases entries.len(),
{
    if entries.len() == 0 {
        None
    } else if entries[0].key@ == key {
        Some(entries[0].value)
    } else {
        table_get(entries.drop_first(), key)
    }
}

/// The entries of a sub-table, when the key holds a table.
pub open spec fn sub_table(entries: Seq<TomlEntry>, key: Seq<char>) -> Option<
    Seq<TomlEntry>,
> {
    match table_get(entries, key) {
        Some(TomlValue::Table(t)) => Some(t@),
        _ => None,
    }
}

/// A lookup below an optional table.
pub open spec fn get_in(t: Option<Seq<TomlEntry>>, key: Seq<char>) -> Option<
    TomlValue,
> {
    match t {
        Some(entries) => table_get(entries, key),
        None => None,
    }
}

/// A sub-table below an optional table.
pub open spec fn sub_in(t: Option<Seq<TomlEntry>>, key: Seq<char>) -> Option<
    Seq<TomlEntry>,
> {
    match get_in(t, key) {
        Some(TomlValue::Table(inner)) => Some(inner@),
        _ => None,
    }
}

/// A boolean setting, with its default.
pub open spec fn got_bool(v: Option<TomlValue>, d: bool) -> bool {
    match v {
        Some(TomlValue::Bool(b)) => b,
        _ => d,
    }
}

/// A string setting, with its default.
pub open spec fn got_str(v: Option<TomlValue>, d: Seq<char>) -> Seq<char> {
    match v {
        Some(TomlValue::Str(s)) => s@,
        _ => d,
    }
}

/// An optional string setting.
pub open spec fn got_opt_str(v: Option<TomlValue>) -> Option<Seq<char>> {
    match v {
        Some(TomlValue::Str(s)) => Some(s@),
        _ => None,
    }
}

/// An integer setting converted to u16, with its default for missing,
/// non-integer and out-of-range values.
pub open spec fn got_u16(v: Option<TomlValue>, d: u16) -> u16 {
    match v {
        Some(TomlValue::Int(i)) => if 0 <= i <= 65535 {
            i as u16
        } else {
            d
        },
        _ => d,
    }
}

/// An integer setting converted to u32, with its default.
pub open spec fn got_u32(v: Option<TomlValue>, d: u32) -> u32 {
    match v {
        Some(TomlValue::Int(i)) => if 0 <= i <= 0xffff_ffff {
            i as u32
        } else {
            d
        },
        _ => d,
    }
}

/// An integer setting converted to u64, with its default.
pub open spec fn got_u64(v: Option<TomlValue>, d: u64) -> u64 {
    match v {
        Some(TomlValue::Int(i)) => if 0 <= i {
            i as u64
        } else {
            d
        },
        _ => d,
    }
}

/// An integer setting converted to usize, with its default.
pub open spec fn got_usize(v: Option<TomlValue>, d: usize) -> usize {
    match v {
        Some(TomlValue::Int(i)) => if 0 <= i <= usize::MAX {
            i as usize
        } else {
            d
        },
        _ => d,
    }
}

/// A plain integer setting, with its default.
pub open spec fn got_i64(v: Option<TomlValue>, d: i64) -> i64 {
    match v {
        Some(TomlValue::Int(i)) => i,
        _ => d,
    }
}

/// A fractional setting in thousandths, with its default.
pub open spec fn got_milli(v: Option<TomlValue>, d: i64) -> i64 {
    match v {
        Some(TomlValue::FloatMilli(m)) => m,
        _ => d,
    }
}

/// A string-list setting; missing or other-typed values read as empty.
pub open spec fn got_str_list(v: Option<TomlValue>) -> Seq<Seq<char>> {
    match v {
        Some(TomlValue::StrList(items)) => items@.map_values(|s: String| s@),
        _ => Seq::empty(),
    }
}

/// Look up a key in a table.
fn entry_get<'a>(entries: &'a Vec<TomlEntry>, key: &str) -> (r: Option<&'a TomlValue>)
    ensures
        (match r {
            Some(v) => table_get(entries@, key@) == Some(*v),
            None => table_get(entries@, key@) is None,
        }),
{
    let key_string = String::from_str(key);
    let n = entries.len();
    proof {
        assert(entries@.subrange(0, n as int) =~= entries@);
    }
    let mut i: usize = 0;
    while i < n
        invariant
            0 <= i <= n,
            n == entries@.len(),
            key_string@ == key@,
            table_get(entries@.subrange(i as int, n as int), key@) == table_get(entries@, key@),
        decreases n - i,
    {
        let ghost tail = entries@.subrange(i as int, n as int);
        proof {
            assert(tail[0] == entries@[i as int]);
            assert(tail.drop_first() =~= entries@.subrange(i as int + 1, n as int));
        }
        if entries[i].key == key_string {
            return Some(&entries[i].value);
        }
        i = i + 1;
    }
    proof {
        assert(entries@.subrange(n as int, n as int).len() == 0);
    }
    None
}

/// Look up a sub-table.
fn entry_sub<'a>(entries: &'a Vec<TomlEntry>, key: &str) -> (r: Option<
    &'a Vec<TomlEntry>,
>)
    ensures
        (match r {
            Some(t) => sub_table(entries@, key@) == Some(t@),
            None => sub_table(entries@, key@) is None,
        }),
{
    match entry_get(entries, key) {
        Some(TomlValue::Table(t)) => Some(t),
        _ => None,
    }
}

/// Open-code runner permissions.
#[derive(Clone, Debug)]
pub struct OpenCodePermissions {
    pub edit: String,
    pub bash: String,
    pub webfetch: String,
}

/// Open-code runner settings.
#[derive(Clone, Debug)]
pub struct OpenCodeSettings {
    pub enabled: bool,
    pub path: String,
    pub max_servers: usize,
    pub server_startup_timeout_secs: u64,
    pub max_restart_retries: u32,
    pub permissions: OpenCodePermissions,
}

/// Memory-injection settings; fractional scores in thousandths.
#[derive(Clone, Debug)]
pub struct MemoryInjectionSettings {
    pub enabled: bool,
    pub search_limit: usize,
    pub contextual_min_score_milli: i64,
    pub context_window_depth: usize,
    pub semantic_threshold_milli: i64,
    pub pinned_types: Vec<String>,
    pub ambient_enabled: bool,
    pub pinned_limit: i64,
    pub pinned_sort: String,
    pub max_total: usize,
    pub max_injected_blocks_in_history: usize,
}

/// The effective instance-level settings. The search key is handed out raw:
/// resolving an "env:NAME" reference is the runtime's business.
#[derive(Clone, Debug)]
pub struct GlobalSettings {
    pub brave_search_key: Option<String>,
    pub api_enabled: bool,
    pub api_port: u16,
    pub api_bind: String,
    pub worker_log_mode: String,
    pub opencode: OpenCodeSettings,
    pub memory_injection: MemoryInjectionSettings,
}

/// Read the effective global settings out of a configuration document,
/// falling back to the built-in default wherever a key is missing or of
/// the wrong type. An absent document reads as all defaults (pass an empty
/// table).
pub fn read_global_settings(doc: &Vec<TomlEntry>) -> (r: GlobalSettings)
    ensures
        ({
            let defaults = sub_table(doc@, "defaults"@);
            let api = sub_table(doc@, "api"@);
            let opencode = sub_in(defaults, "opencode"@);
            let perms = sub_in(opencode, "permissions"@);
            let memory = sub_in(defaults, "memory_injection"@);
            &&& (match r.brave_search_key {
                Some(k) => got_opt_str(get_in(defaults, "brave_search_key"@)) == Some(k@),
                None => got_opt_str(get_in(defaults, "brave_search_key"@)) is None,
            })
            &&& r.api_enabled == got_bool(get_in(api, "enabled"@), true)
            &&& r.api_port == got_u16(get_in(api, "port"@), 19898)
            &&& r.api_bind@ == got_str(get_in(api, "bind"@), "127.0.0.1"@)
            &&& r.worker_log_mode@ == got_str(get_in(defaults, "worker_log_mode"@), "errors_only"@)
            &&& r.opencode.enabled == got_bool(get_in(opencode, "enabled"@), false)
            &&& r.opencode.path@ == got_str(get_in(opencode, "path"@), "opencode"@)
            &&& r.opencode.max_servers == got_usize(get_in(opencode, "max_servers"@), 5)
            &&& r.opencode.server_startup_timeout_secs == got_u64(
                get_in(opencode, "server_startup_timeout_secs"@),
                30,
            )
            &&& r.opencode.max_restart_retries == got_u32(
                get_in(opencode, "max_restart_retries"@),
                5,
            )
            &&& r.opencode.permissions.edit@ == got_str(get_in(perms, "edit"@), "allow"@)
            &&& r.opencode.permissions.bash@ == got_str(get_in(perms, "bash"@), "allow"@)
            &&& r.opencode.permissions.webfetch@ == got_str(get_in(perms, "webfetch"@), "allow"@)
            &&& r.memory_injection.enabled == got_bool(get_in(memory, "enabled"@), true)
            &&& r.memory_injection.search_limit == got_usize(get_in(memory, "search_limit"@), 20)
            &&& r.memory_injection.contextual_min_score_milli == got_milli(
                get_in(memory, "contextual_min_score"@),
                10,
            )
            &&& r.memory_injection.context_window_depth == got_usize(
                get_in(memory, "context_window_depth"@),
                10,
            )
            &&& r.memory_injection.semantic_threshold_milli == got_milli(
                get_in(memory, "semantic_threshold"@),
                850,
            )
            &&& r.memory_injection.pinned_types@.map_values(|s: String| s@) == got_str_list(
                get_in(memory, "pinned_types"@),
            )
            &&& r.memory_injection.ambient_enabled == got_bool(
                get_in(memory, "ambient_enabled"@),
                false,
            )
            &&& r.memory_injection.pinned_limit == got_i64(get_in(memory, "pinned_limit"@), 3)
            &&& r.memory_injection.pinned_sort@ == got_str(
                get_in(memory, "pinned_sort"@),
                "recent"@,
            )
            &&& r.memory_injection.max_total == got_usize(get_in(memory, "max_total"@), 25)
            &&& r.memory_injection.max_injected_blocks_in_history == got_usize(
                get_in(memory, "max_injected_blocks_in_history"@),
                3,
            )
        }),
{
    let defaults = entry_sub(doc, "defaults");
    let api = entry_sub(doc, "api");
    let brave_search_key = match defaults {
        Some(d) => match entry_get(d, "brave_search_key") {
            Some(TomlValue::Str(s)) => Some(s.clone()),
            _ => None,
        },
        None => None,
    };
    let api_enabled = match api {
        Some(a) => match entry_get(a, "enabled") {
            Some(TomlValue::Bool(b)) => *b,
            _ => true,
        },
        None => true,
    };
    let api_port = match api {
        Some(a) => match entry_get(a, "port") {
            Some(TomlValue::Int(i)) => {
                if 0 <= *i && *i <= 65535 {
                    *i as u16
                } else {
                    19898
                }
            },
            _ => 19898,
        },
        None => 19898,
    };
    let api_bind = match api {
        Some(a) => match entry_get(a, "bind") {
            Some(TomlValue::Str(s)) => s.clone(),
            _ => String::from_str("127.0.0.1"),
        },
        None => String::from_str("127.0.0.1"),
    };
    let worker_log_mode = match defaults {
        Some(d) => match entry_get(d, "worker_log_mode") {
            Some(TomlValue::Str(s)) => s.clone(),
            _ => String::from_str("errors_only"),
        },
        None => String::from_str("errors_only"),
    };
    let opencode_table = match defaults {
        Some(d) => entry_sub(d, "opencode"),
        None => None,
    };
    let perms_table = match opencode_table {
        Some(o) => entry_sub(o, "permissions"),
        None => None,
    };
    let opencode = OpenCodeSettings {
        enabled: match opencode_table {
            Some(o) => match entry_get(o, "enabled") {
                Some(TomlValue::Bool(b)) => *b,
                _ => false,
            },
            None => false,
        },
        path: match opencode_table {
            Some(o) => match entry_get(o, "path") {
                Some(TomlValue::Str(s)) => s.clone(),
                _ => String::from_str("opencode"),
            },
            None => String::from_str("opencode"),
        },
        max_servers: match opencode_table {
            Some(o) => match entry_get(o, "max_servers") {
                Some(TomlValue::Int(i)) => {
                    if 0 <= *i && *i as u128 <= usize::MAX as u128 {
                        *i as usize
                    } else {
                        5
                    }
                },
                _ => 5,
            },
            None => 5,
        },
        server_startup_timeout_secs: match opencode_table {
            Some(o) => match entry_get(o, "server_startup_timeout_secs") {
                Some(TomlValue::Int(i)) => {
                    if 0 <= *i {
                        *i as u64
                    } else {
                        30
                    }
                },
                _ => 30,
            },
            None => 30,
        },
        max_restart_retries: match opencode_table {
            Some(o) => match entry_get(o, "max_restart_retries") {
                Some(TomlValue::Int(i)) => {
                    if 0 <= *i && *i <= 0xffff_ffff {
                        *i as u32
                    } else {
                        5
                    }
                },
                _ => 5,
            },
            None => 5,
        },
        permissions: OpenCodePermissions {
            edit: match perms_table {
                Some(p) => match entry_get(p, "edit") {
                    Some(TomlValue::Str(s)) => s.clone(),
                    _ => String::from_str("allow"),
                },
                None => String::from_str("allow"),
            },
            bash: match perms_table {
                Some(p) => match entry_get(p, "bash") {
                    Some(TomlValue::Str(s)) => s.clone(),
                    _ => String::from_str("allow"),
                },
                None => String::from_str("allow"),
            },
            webfetch: match perms_table {
                Some(p) => match entry_get(p, "webfetch") {
                    Some(TomlValue::Str(s)) => s.clone(),
                    _ => String::from_str("allow"),
                },
                None => String::from_str("allow"),
            },
        },
    };
    let memory_table = match defaults {
        Some(d) => entry_sub(d, "memory_injection"),
        None => None,
    };
    let memory_injection = MemoryInjectionSettings {
        enabled: match memory_table {
            Some(m) => match entry_get(m, "enabled") {
                Some(TomlValue::Bool(b)) => *b,
                _ => true,
            },
            None => true,
        },
        search_limit: match memory_table {
            Some(m) => match entry_get(m, "search_limit") {
                Some(TomlValue::Int(i)) => {
                    if 0 <= *i && *i as u128 <= usize::MAX as u128 {
                        *i as usize
                    } else {
                        20
                    }
                },
                _ => 20,
            },
            None => 20,
        },
        contextual_min_score_milli: match memory_table {
            Some(m) => match entry_get(m, "contextual_min_score") {
                Some(TomlValue::FloatMilli(v)) => *v,
                _ => 10,
            },
            None => 10,
        },
        context_window_depth: match memory_table {
            Some(m) => match entry_get(m, "context_window_depth") {
                Some(TomlValue::Int(i)) => {
                    if 0 <= *i && *i as u128 <= usize::MAX as u128 {
                        *i as usize
                    } else {
                        10
                    }
                },
                _ => 10,
            },
            None => 10,
        },
        semantic_threshold_milli: match memory_table {
            Some(m) => match entry_get(m, "semantic_threshold") {
                Some(TomlValue::FloatMilli(v)) => *v,
                _ => 850,
            },
            None => 850,
        },
        pinned_types: match memory_table {
            Some(m) => match entry_get(m, "pinned_types") {
                Some(TomlValue::StrList(items)) => {
                    let mut out: Vec<String> = Vec::new();
                    let n = items.len();
                    let mut i: usize = 0;
                    while i < n
                        invariant
                            0 <= i <= n,
                            n == items@.len(),
                            out@.len() == i,
                            forall|k: int| 0 <= k < i ==> (#[trigger] out@[k])@ == items@[k]@,
                        decreases n - i,
                    {
                        out.push(items[i].clone());
                        i = i + 1;
                    }
                    proof {
                        assert(out@.map_values(|s: String| s@) =~= items@.map_values(
                            |s: String| s@,
                        ));
                    }
                    out
                },
                _ => Vec::new(),
            },
            None => Vec::new(),
        },
        ambient_enabled: match memory_table {
            Some(m) => match entry_get(m, "ambient_enabled") {
                Some(TomlValue::Bool(b)) => *b,
                _ => false,
            },
            None => false,
        },
        pinned_limit: match memory_table {
            Some(m) => match entry_get(m, "pinned_limit") {
                Some(TomlValue::Int(i)) => *i,
                _ => 3,
            },
            None => 3,
        },
        pinned_sort: match memory_table {
            Some(m) => match entry_get(m, "pinned_sort") {
                Some(TomlValue::Str(s)) => s.clone(),
                _ => String::from_str("recent"),
            },
            None => String::from_str("recent"),
        },
        max_total: match memory_table {
            Some(m) => match entry_get(m, "max_total") {
                Some(TomlValue::Int(i)) => {
                    if 0 <= *i && *i as u128 <= usize::MAX as u128 {
                        *i as usize
                    } else {
                        25
                    }
                },
                _ => 25,
            },
            None => 25,
        },
        max_injected_blocks_in_history: match memory_table {
            Some(m) => match entry_get(m, "max_injected_blocks_in_history") {
                Some(TomlValue::Int(i)) => {
                    if 0 <= *i && *i as u128 <= usize::MAX as u128 {
                        *i as usize
                    } else {
                        3
                    }
                },
                _ => 3,
            },
            None => 3,
        },
    };
    GlobalSettings {
        brave_search_key,
        api_enabled,
        api_port,
        api_bind,
        worker_log_mode,
        opencode,
        memory_injection,
    }
}


/// A requested change to the open-code settings; unset fields stay as they
/// are.
#[derive(Debug)]
pub struct OpenCodePermissionsUpdate {
    pub edit: Option<String>,
    pub bash: Option<String>,
    pub webfetch: Option<String>,
}

/// A requested change to the open-code runner settings.
#[derive(Debug)]
pub struct OpenCodeSettingsUpdate {
    pub enabled: Option<bool>,
    pub path: Option<String>,
    pub max_servers: Option<usize>,
    pub server_startup_timeout_secs: Option<u64>,
    pub max_restart_retries: Option<u32>,
    pub permissions: Option<OpenCodePermissionsUpdate>,
}

/// A requested change to the memory-injection settings; fractional scores
/// in thousandths.
#[derive(Debug)]
pub struct MemoryInjectionUpdate {
    pub enabled: Option<bool>,
    pub search_limit: Option<usize>,
    pub contextual_min_score_milli: Option<i64>,
    pub context_window_depth: Option<usize>,
    pub semantic_threshold_milli: Option<i64>,
    pub pinned_types: Option<Vec<String>>,
    pub ambient_enabled: Option<bool>,
    pub pinned_limit: Option<i64>,
    pub pinned_sort: Option<String>,
    pub max_total: Option<usize>,
    pub max_injected_blocks_in_history: Option<usize>,
}

/// A requested change to the global settings; unset fields stay as they
/// are.
#[derive(Debug)]
pub struct GlobalSettingsUpdate {
    pub brave_search_key: Option<String>,
    pub api_enabled: Option<bool>,
    pub api_port: Option<u16>,
    pub api_bind: Option<String>,
    pub worker_log_mode: Option<String>,
    pub opencode: Option<OpenCodeSettingsUpdate>,
    pub memory_injection: Option<MemoryInjectionUpdate>,
}

/// The outcome reported to the caller of a settings update.
#[derive(Debug)]
pub struct GlobalSettingsUpdateResponse {
    pub success: bool,
    pub message: String,
    pub requires_restart: bool,
}

/// How the stored search key changes: cleared, or set to a new value.
#[derive(Debug)]
pub enum BraveKeyEdit {
    Clear,
    Store(String),
}

/// The validated plan for a settings update: what the runtime writes into
/// the configuration document, and the response for the caller. A rejected
/// request plans no edits at all.
#[derive(Debug)]
pub struct SettingsUpdatePlan {
    pub brave_search_key: Option<BraveKeyEdit>,
    pub api_enabled: Option<bool>,
    pub api_port: Option<u16>,
    pub api_bind: Option<String>,
    pub worker_log_mode: Option<String>,
    pub opencode: Option<OpenCodeSettingsUpdate>,
    pub memory_injection: Option<MemoryInjectionUpdate>,
    pub response: GlobalSettingsUpdateResponse,
}

/// The worker log modes a request may set.
pub open spec fn is_valid_log_mode(m: Seq<char>) -> bool {
    m == "errors_only"@ || m == "all_separate"@ || m == "all_combined"@
}

/// Plan a global-settings update.
///
/// A request naming an unknown worker log mode is rejected whole: no edit
/// is planned and the response says which mode was refused. Otherwise every
/// named field is planned as written — an empty search key clears the
/// stored one — and the response notes that changes to the API server
/// settings only take effect after a restart.
pub fn plan_global_settings_update(request: GlobalSettingsUpdate) -> (plan: SettingsUpdatePlan)
    ensures
        (match request.worker_log_mode {
            Some(m) => !is_valid_log_mode(m@) ==> ({
                &&& plan.brave_search_key is None
                &&& plan.api_enabled is None
                &&& plan.api_port is None
                &&& plan.api_bind is None
                &&& plan.worker_log_mode is None
                &&& plan.opencode is None
                &&& plan.memory_injection is None
                &&& !plan.response.success
                &&& !plan.response.requires_restart
                &&& plan.response.message@ == "Invalid worker log mode: "@ + m@
            }),
            None => true,
        }),
        (match request.worker_log_mode {
            Some(m) => is_valid_log_mode(m@),
            None => true,
        }) ==> ({
            &&& (match request.brave_search_key {
                Some(k) => if k@.len() == 0 {
                    plan.brave_search_key matches Some(BraveKeyEdit::Clear)
                } else {
                    plan.brave_search_key matches Some(BraveKeyEdit::Store(v)) && v == k
                },
                None => plan.brave_search_key is None,
            })
            &&& plan.api_enabled == request.api_enabled
            &&& plan.api_port == request.api_port
            &&& plan.api_bind == request.api_bind
            &&& plan.worker_log_mode == request.worker_log_mode
            &&& plan.opencode == request.opencode
            &&& plan.memory_injection == request.memory_injection
            &&& plan.response.success
            &&& plan.response.requires_restart == (request.api_enabled is Some
                || request.api_port is Some || request.api_bind is Some)
            &&& (plan.response.requires_restart ==> plan.response.message@
                == "Settings updated. API server changes require a restart to take effect."@)
            &&& (!plan.response.requires_restart ==> plan.response.message@
                == "Settings updated successfully."@)
        }),
{
    match &request.worker_log_mode {
        Some(mode) => {
            let valid = *mode == String::from_str("errors_only") || *mode == String::from_str(
                "all_separate",
            ) || *mode == String::from_str("all_combined");
            if !valid {
                let mut message = String::from_str("Invalid worker log mode: ");
                message.append(mode.as_str());
                return SettingsUpdatePlan {
                    brave_search_key: None,
                    api_enabled: None,
                    api_port: None,
                    api_bind: None,
                    worker_log_mode: None,
                    opencode: None,
                    memory_injection: None,
                    response: GlobalSettingsUpdateResponse {
                        success: false,
                        message,
                        requires_restart: false,
                    },
                };
            }
        },
        None => {},
    }
    let requires_restart = request.api_enabled.is_some() || request.api_port.is_some()
        || request.api_bind.is_some();
    let brave_search_key = match request.brave_search_key {
        Some(k) => {
            if k.as_str().unicode_len() == 0 {
                Some(BraveKeyEdit::Clear)
            } else {
                Some(BraveKeyEdit::Store(k))
            }
        },
        None => None,
    };
    let message = if requires_restart {
        String::from_str("Settings updated. API server changes require a restart to take effect.")
    } else {
        String::from_str("Settings updated successfully.")
    };
    SettingsUpdatePlan {
        brave_search_key,
        api_enabled: request.api_enabled,
        api_port: request.api_port,
        api_bind: request.api_bind,
        worker_log_mode: request.worker_log_mode,
        opencode: request.opencode,
        memory_injection: request.memory_injection,
        response: GlobalSettingsUpdateResponse { success: true, message, requires_restart },
    }
}

} // verus!
