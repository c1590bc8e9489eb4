//! Resolution of the sparse, symbolic configuration handed in by the host
//! into the settings the native engine is opened with.
//!
//! The host supplies, for each recognized option key, at most one dynamically
//! typed value. A key that is absent leaves the engine's own default
//! untouched; a recognized key whose value is not of the expected type is
//! deliberately ignored and the default kept (lenient-default policy);
//! unrecognized keys are never handed to this module at all.

use vstd::prelude::*;

verus! {

/// Engine access mode.
#[derive(Clone, Copy, Debug, PartialEq, Eq)]
pub enum AccessMode {
    Automatic,
    ReadOnly,
    ReadWrite,
}

/// Default sort direction.
#[derive(Clone, Copy, Debug, PartialEq, Eq)]
pub enum SortOrder {
    Ascending,
    Descending,
}

/// Default placement of nulls in sorted output.
#[derive(Clone, Copy, Debug, PartialEq, Eq)]
pub enum NullOrder {
    NullsFirst,
    NullsLast,
}

/// A symbolic constant the host may pass as an option value. `Other` stands
/// for any symbol that is not one of the recognized constants.
#[derive(Clone, Copy, Debug, PartialEq, Eq)]
pub enum SettingSymbol {
    Automatic,
    ReadOnly,
    ReadWrite,
    Ascending,
    Descending,
    NullsFirst,
    NullsLast,
    Other,
}

/// A dynamically typed option value as it arrives from the host: a symbolic
/// constant, an unsigned number, a truth value, or anything else (`Other`).
#[derive(Clone, Copy, Debug, PartialEq, Eq)]
pub enum HostValue {
    Symbol(SettingSymbol),
    Number(u32),
    Truth(bool),
    Other,
}

/// The sparse configuration mapping: for each recognized option key, the
/// value the host supplied for it, if any.
#[derive(Clone, Copy, Debug, PartialEq, Eq)]
pub struct RawSettings {
    pub access_mode: Option<HostValue>,
    pub maximum_memory: Option<HostValue>,
    pub maximum_threads: Option<HostValue>,
    pub default_order: Option<HostValue>,
    pub default_null_order: Option<HostValue>,
    pub enable_external_access: Option<HostValue>,
    pub object_cache_enable: Option<HostValue>,
    pub allow_unsigned_extensions: Option<HostValue>,
}

/// The resolved settings the native engine is to be opened with. `None` in an
/// option field means: leave the engine's own default untouched.
#[derive(Clone, Copy, Debug, PartialEq, Eq)]
pub struct ResolvedConfig {
    pub access_mode: Option<AccessMode>,
    /// Maximum engine memory, in bytes.
    pub max_memory_bytes: Option<u32>,
    /// Maximum worker-thread count; also recorded as slot metadata.
    pub threads: Option<u32>,
    pub default_order: Option<SortOrder>,
    pub default_null_order: Option<NullOrder>,
    pub external_access: Option<bool>,
    pub object_cache: Option<bool>,
    /// Unlike the other options this one is only ever switched on: a supplied
    /// `false` is the same as leaving it out.
    pub allow_unsigned_extensions: bool,
}

/// The empty configuration: no recognized key supplied.
pub open spec fn empty_settings() -> RawSettings {
    RawSettings {
        access_mode: None,
        maximum_memory: None,
        maximum_threads: None,
        default_order: None,
        default_null_order: None,
        enable_external_access: None,
        object_cache_enable: None,
        allow_unsigned_extensions: None,
    }
}

/// A resolution that touches nothing: every option left at the engine default.
pub open spec fn all_defaults() -> ResolvedConfig {
    ResolvedConfig {
        access_mode: None,
        max_memory_bytes: None,
        threads: None,
        default_order: None,
        default_null_order: None,
        external_access: None,
        object_cache: None,
        allow_unsigned_extensions: false,
    }
}

/// What the access-mode key resolves to: one of the three recognized symbols,
/// or the default for anything else.
pub open spec fn resolved_access_mode(v: Option<HostValue>) -> Option<AccessMode> {
    match v {
        Some(HostValue::Symbol(SettingSymbol::Automatic)) => Some(AccessMode::Automatic),
        Some(HostValue::Symbol(SettingSymbol::ReadOnly)) => Some(AccessMode::ReadOnly),
        Some(HostValue::Symbol(SettingSymbol::ReadWrite)) => Some(AccessMode::ReadWrite),
        _ => None,
    }
}

/// What a numeric key resolves to: the number, or the default when the value
/// is absent or not a number.
pub open spec fn resolved_number(v: Option<HostValue>) -> Option<u32> {
    match v {
        Some(HostValue::Number(n)) => Some(n),
        _ => None,
    }
}

/// What a truth-valued key resolves to: the truth value, or the default when
/// the value is absent or not a truth value.
pub open spec fn resolved_truth(v: Option<HostValue>) -> Option<bool> {
    match v {
        Some(HostValue::Truth(b)) => Some(b),
        _ => None,
    }
}

/// What the sort-order key resolves to.
pub open spec fn resolved_order(v: Option<HostValue>) -> Option<SortOrder> {
    match v {
        Some(HostValue::Symbol(SettingSymbol::Ascending)) => Some(SortOrder::Ascending),
        Some(HostValue::Symbol(SettingSymbol::Descending)) => Some(SortOrder::Descending),
        _ => None,
    }
}

/// What the null-order key resolves to.
pub open spec fn resolved_null_order(v: Option<HostValue>) -> Option<NullOrder> {
    match v {
        Some(HostValue::Symbol(SettingSymbol::NullsFirst)) => Some(NullOrder::NullsFirst),
        Some(HostValue::Symbol(SettingSymbol::NullsLast)) => Some(NullOrder::NullsLast),
        _ => None,
    }
}

/// Unsigned-extension loading is only ever switched on, by a supplied `true`.
pub open spec fn resolved_allow_unsigned(v: Option<HostValue>) -> bool {
    v == Some(HostValue::Truth(true))
}

/// The full resolution of a raw configuration, key by key.
pub open spec fn resolved_of(raw: RawSettings) -> ResolvedConfig {
    ResolvedConfig {
        access_mode: resolved_access_mode(raw.access_mode),
        max_memory_bytes: resolved_number(raw.maximum_memory),
        threads: resolved_number(raw.maximum_threads),
        default_order: resolved_order(raw.default_order),
        default_null_order: resolved_null_order(raw.default_null_order),
        external_access: resolved_truth(raw.enable_external_access),
        object_cache: resolved_truth(raw.object_cache_enable),
        allow_unsigned_extensions: resolved_allow_unsigned(raw.allow_unsigned_extensions),
    }
}

/// The thread count recorded as slot metadata for a new connection: the
/// resolved maximum-thread setting, or 0 when none was supplied.
pub open spec fn recorded_threads(c: ResolvedConfig) -> u32 {
    match c.threads {
        Some(n) => n,
        None => 0,
    }
}

impl RawSettings {
    /// The empty configuration mapping.
    pub fn empty() -> (r: Self)
        ensures
            r == empty_settings(),
    {
        RawSettings {
            access_mode: None,
            maximum_memory: None,
            maximum_threads: None,
            default_order: None,
            default_null_order: None,
            enable_external_access: None,
            object_cache_enable: None,
            allow_unsigned_extensions: None,
        }
    }
}

/// Resolves a raw configuration: each recognized key that carries a value of
/// its expected type is taken over, everything else falls back to the
/// engine's own default.
pub fn resolve(raw: &RawSettings) -> (r: ResolvedConfig)
    ensures
        r == resolved_of(*raw),
{
    let access_mode: Option<AccessMode> = match raw.access_mode {
        Some(HostValue::Symbol(SettingSymbol::Automatic)) => Some(AccessMode::Automatic),
        Some(HostValue::Symbol(SettingSymbol::ReadOnly)) => Some(AccessMode::ReadOnly),
        Some(HostValue::Symbol(SettingSymbol::ReadWrite)) => Some(AccessMode::ReadWrite),
        _ => None,
    };
    let max_memory_bytes: Option<u32> = match raw.maximum_memory {
        Some(HostValue::Number(n)) => Some(n),
        _ => None,
    };
    let threads: Option<u32> = match raw.maximum_threads {
        Some(HostValue::Number(n)) => Some(n),
        _ => None,
    };
    let default_order: Option<SortOrder> = match raw.default_order {
        Some(HostValue::Symbol(SettingSymbol::Ascending)) => Some(SortOrder::Ascending),
        Some(HostValue::Symbol(SettingSymbol::Descending)) => Some(SortOrder::Descending),
        _ => None,
    };
    let default_null_order: Option<NullOrder> = match raw.default_null_order {
        Some(HostValue::Symbol(SettingSymbol::NullsFirst)) => Some(NullOrder::NullsFirst),
        Some(HostValue::Symbol(SettingSymbol::NullsLast)) => Some(NullOrder::NullsLast),
        _ => None,
    };
    let external_access: Option<bool> = match raw.enable_external_access {
        Some(HostValue::Truth(b)) => Some(b),
        _ => None,
    };
    let object_cache: Option<bool> = match raw.object_cache_enable {
        Some(HostValue::Truth(b)) => Some(b),
        _ => None,
    };
    let allow_unsigned_extensions: bool = match raw.allow_unsigned_extensions {
        Some(HostValue::Truth(true)) => true,
        _ => false,
    };
    ResolvedConfig {
        access_mode,
        max_memory_bytes,
        threads,
        default_order,
        default_null_order,
        external_access,
        object_cache,
        allow_unsigned_extensions,
    }
}

/// The thread count recorded as metadata when a connection is opened.
pub fn recorded_thread_count(c: &ResolvedConfig) -> (n: u32)
    ensures
        n == recorded_threads(*c),
{
    match c.threads {
        Some(n) => n,
        None => 0,
    }
}

/// Law: the empty configuration resolves to the engine's own defaults —
/// every recognized option left unset, nothing switched on, and a recorded
/// thread count of 0.
pub proof fn lemma_empty_settings_use_defaults()
    ensures
        resolved_of(empty_settings()) == all_defaults(),
        recorded_threads(resolved_of(empty_settings())) == 0,
{
}

/// Law: a numeric maximum-thread setting is resolved and recorded verbatim,
/// whatever the rest of the configuration holds.
pub proof fn lemma_thread_count_recorded(raw: RawSettings, n: u32)
    requires
        raw.maximum_threads == Some(HostValue::Number(n)),
    ensures
        resolved_of(raw).threads == Some(n),
        recorded_threads(resolved_of(raw)) == n,
{
}

} // verus!
