//! The fallback router: its configuration, whether it is routing to the
//! cloud, and how many requests it has sent there.
use vstd::prelude::*;

verus! {

/// Where and when to fall back to a cloud model.
#[derive(Debug, Clone)]
pub struct FallbackConfig {
    pub enabled: bool,
    pub provider: String,
    pub model: String,
    pub latency_threshold_ms: u32,
    pub api_key: Option<String>,
}

/// Whether `c` is the default configuration: enabled, Groq's
/// `llama-3.3-70b-versatile`, a 2500 ms threshold and the demo key.
pub open spec fn is_default_config(c: FallbackConfig) -> bool {
    &&& c.enabled
    &&& c.provider@ == "groq"@
    &&& c.model@ == "llama-3.3-70b-versatile"@
    &&& c.latency_threshold_ms == 2500
    &&& c.api_key matches Some(k) && k@ == "gsk-selfapi-fallback-demo"@
}

impl Default for FallbackConfig {
    /// The default configuration.
    fn default() -> (c: Self)
        ensures
            is_default_config(c),
    {
        FallbackConfig {
            enabled: true,
            provider: String::from_str("groq"),
            model: String::from_str("llama-3.3-70b-versatile"),
            latency_threshold_ms: 2500,
            api_key: Some(String::from_str("gsk-selfapi-fallback-demo")),
        }
    }
}

/// An equal copy of a configuration.
pub fn copy_config(c: &FallbackConfig) -> (r: FallbackConfig)
    ensures
        r == *c,
{
    FallbackConfig {
        enabled: c.enabled,
        provider: c.provider.clone(),
        model: c.model.clone(),
        latency_threshold_ms: c.latency_threshold_ms,
        api_key: match &c.api_key {
            Some(k) => Some(k.clone()),
            None => None,
        },
    }
}

/// The router's configuration and counters as reported.
#[derive(Debug, Clone)]
pub struct FallbackStatus {
    pub config: FallbackConfig,
    pub active_fallback: bool,
    pub fallback_requests_count: u64,
}

/// The router's state.
pub struct FallbackRouter {
    config: FallbackConfig,
    active: bool,
    counter: u64,
}

/// What a router holds: its configuration, whether the last decision routed
/// to the cloud, and the number of requests routed there.
pub struct FallbackRouterView {
    pub config: FallbackConfig,
    pub active: bool,
    pub counter: u64,
}

impl View for FallbackRouter {
    type V = FallbackRouterView;

    closed spec fn view(&self) -> FallbackRouterView {
        FallbackRouterView { config: self.config, active: self.active, counter: self.counter }
    }
}

/// Whether `s` reports the router state `v`.
pub open spec fn status_of(v: FallbackRouterView, s: FallbackStatus) -> bool {
    &&& s.config == v.config
    &&& s.active_fallback == v.active
    &&& s.fallback_requests_count == v.counter
}

/// The counter after one more fallback, wrapping at `u64::MAX`.
pub open spec fn counted(counter: u64) -> u64 {
    if counter == u64::MAX {
        0
    } else {
        (counter + 1) as u64
    }
}

/// Whether deciding on a request (local model offline or not, with the given
/// queue latency) may answer `b` and take the router from `before` to
/// `after`: a disabled router never falls back and stays as it was; an
/// enabled one falls back exactly when the model is offline or the latency
/// exceeds its threshold, remembers that answer, and counts each fallback.
pub open spec fn fallback_step(
    before: FallbackRouterView,
    local_offline: bool,
    queue_latency_ms: u32,
    b: bool,
    after: FallbackRouterView,
) -> bool {
    if !before.config.enabled {
        !b && after == before
    } else {
        &&& b == (local_offline || queue_latency_ms > before.config.latency_threshold_ms)
        &&& after.config == before.config
        &&& after.active == b
        &&& after.counter == if b {
            counted(before.counter)
        } else {
            before.counter
        }
    }
}

/// A decision never changes the configuration, and the router falls back
/// only when fallback is enabled and the local model is offline or too slow.
pub proof fn law_fallback_only_when_needed(
    before: FallbackRouterView,
    local_offline: bool,
    queue_latency_ms: u32,
    b: bool,
    after: FallbackRouterView,
)
    requires
        fallback_step(before, local_offline, queue_latency_ms, b, after),
    ensures
        after.config == before.config,
        b ==> before.config.enabled && (local_offline || queue_latency_ms > before.config.latency_threshold_ms),
        !b ==> after.counter == before.counter,
{
}

/// After a configuration is set, the status reports it, and the decisions
/// that follow use its switch and threshold.
pub proof fn law_config_then_decide(
    set: FallbackRouterView,
    cfg: FallbackConfig,
    s: FallbackStatus,
    local_offline: bool,
    queue_latency_ms: u32,
    b: bool,
    after: FallbackRouterView,
)
    requires
        set.config == cfg,
        status_of(set, s),
        fallback_step(set, local_offline, queue_latency_ms, b, after),
    ensures
        s.config == cfg,
        b == (cfg.enabled && (local_offline || queue_latency_ms > cfg.latency_threshold_ms)),
{
}

impl FallbackRouter {
    /// A router with the default configuration, not routing, whose counter
    /// starts at 14.
    pub fn new() -> (r: Self)
        ensures
            is_default_config(r@.config),
            !r@.active,
            r@.counter == 14,
    {
        FallbackRouter { config: FallbackConfig::default(), active: false, counter: 14 }
    }

    /// The router's current status.
    pub fn get_status(&self) -> (s: FallbackStatus)
        ensures
            status_of(self@, s),
    {
        FallbackStatus {
            config: copy_config(&self.config),
            active_fallback: self.active,
            fallback_requests_count: self.counter,
        }
    }

    /// Replaces the configuration and reports the new status.
    pub fn set_config(&mut self, new_cfg: FallbackConfig) -> (s: FallbackStatus)
        ensures
            final(self)@.config == new_cfg,
            final(self)@.active == old(self)@.active,
            final(self)@.counter == old(self)@.counter,
            status_of(final(self)@, s),
    {
        self.config = new_cfg;
        self.get_status()
    }

    /// Decides whether a request goes to the cloud: never when fallback is
    /// disabled (and then nothing changes); otherwise when the local model is
    /// offline or the queue latency exceeds the threshold. The decision is
    /// remembered, and each fallback is counted (wrapping at `u64::MAX`).
    pub fn should_fallback(&mut self, local_offline: bool, queue_latency_ms: u32) -> (b: bool)
        ensures
            fallback_step(old(self)@, local_offline, queue_latency_ms, b, final(self)@),
    {
        if !self.config.enabled {
            return false;
        }
        let trigger = local_offline || queue_latency_ms > self.config.latency_threshold_ms;
        self.active = trigger;
        if trigger {
            self.counter = if self.counter == u64::MAX {
                0
            } else {
                self.counter + 1
            };
        }
        trigger
    }
}

} // verus!
