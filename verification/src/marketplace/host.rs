//! The marketplace host: its capacity offer, reputation and earnings. Prices
//! and earnings are whole cents, memory is tenths of a GiB and uptime is
//! hundredths of a percent.
use vstd::prelude::*;

verus! {

/// The capacity offered on the marketplace.
#[derive(Debug, Clone)]
pub struct HostCapacityConfig {
    pub enabled: bool,
    pub price_per_1m_tokens_usd_cents: u64,
    pub max_allocated_vram_deci_gb: u32,
}

/// The host's standing.
#[derive(Debug, Clone)]
pub struct HostReputation {
    pub uptime_basis_points: u32,
    pub p95_latency_ms: u32,
    pub jobs_completed: u64,
    pub tier: String,
}

/// The host's status as reported.
#[derive(Debug, Clone)]
pub struct MarketplaceHostStatus {
    pub config: HostCapacityConfig,
    pub reputation: HostReputation,
    pub total_earned_usd_cents: u64,
    pub pending_payout_usd_cents: u64,
}

impl Default for HostCapacityConfig {
    /// Sharing off, 20 cents per million tokens, at most 8 GiB.
    fn default() -> (c: Self)
        ensures
            !c.enabled,
            c.price_per_1m_tokens_usd_cents == 20,
            c.max_allocated_vram_deci_gb == 80,
    {
        HostCapacityConfig {
            enabled: false,
            price_per_1m_tokens_usd_cents: 20,
            max_allocated_vram_deci_gb: 80,
        }
    }
}

/// The marketplace manager: the capacity offer and whether sharing is on.
pub struct MarketplaceManager {
    config: HostCapacityConfig,
    sharing_active: bool,
}

/// What a marketplace manager holds.
pub struct MarketplaceManagerView {
    pub config: HostCapacityConfig,
    pub sharing_active: bool,
}

impl View for MarketplaceManager {
    type V = MarketplaceManagerView;

    closed spec fn view(&self) -> MarketplaceManagerView {
        MarketplaceManagerView { config: self.config, sharing_active: self.sharing_active }
    }
}

/// Whether `s` reports the manager state `v`: the offer with `enabled` telling
/// whether sharing is on, a community node with full uptime and no jobs, and
/// no earnings yet.
pub open spec fn host_status_of(v: MarketplaceManagerView, s: MarketplaceHostStatus) -> bool {
    &&& s.config.enabled == v.sharing_active
    &&& s.config.price_per_1m_tokens_usd_cents == v.config.price_per_1m_tokens_usd_cents
    &&& s.config.max_allocated_vram_deci_gb == v.config.max_allocated_vram_deci_gb
    &&& s.reputation.uptime_basis_points == 10000
    &&& s.reputation.p95_latency_ms == 0
    &&& s.reputation.jobs_completed == 0
    &&& s.reputation.tier@ == "Community Node"@
    &&& s.total_earned_usd_cents == 0
    &&& s.pending_payout_usd_cents == 0
}

/// Whether `after` is `before` with sharing flipped and the offer kept.
pub open spec fn sharing_toggled(before: MarketplaceManagerView, after: MarketplaceManagerView) -> bool {
    &&& after.sharing_active == !before.sharing_active
    &&& after.config == before.config
}

/// Toggling sharing twice gives back the state it started from.
pub proof fn law_toggle_sharing_twice(a: MarketplaceManagerView, b: MarketplaceManagerView, c: MarketplaceManagerView)
    requires
        sharing_toggled(a, b),
        sharing_toggled(b, c),
    ensures
        c == a,
{
}

/// The status reports sharing as enabled exactly when it is on, and no
/// earnings.
pub proof fn law_status_reports_sharing(v: MarketplaceManagerView, s: MarketplaceHostStatus)
    requires
        host_status_of(v, s),
    ensures
        s.config.enabled == v.sharing_active,
        s.total_earned_usd_cents == 0,
        s.pending_payout_usd_cents == 0,
{
}

impl MarketplaceManager {
    /// A manager with the default offer and sharing off.
    pub fn new() -> (m: Self)
        ensures
            !m@.sharing_active,
            !m@.config.enabled,
            m@.config.price_per_1m_tokens_usd_cents == 20,
            m@.config.max_allocated_vram_deci_gb == 80,
    {
        MarketplaceManager { config: HostCapacityConfig::default(), sharing_active: false }
    }

    /// The host's status.
    pub fn get_status(&self) -> (s: MarketplaceHostStatus)
        ensures
            host_status_of(self@, s),
    {
        MarketplaceHostStatus {
            config: HostCapacityConfig {
                enabled: self.sharing_active,
                price_per_1m_tokens_usd_cents: self.config.price_per_1m_tokens_usd_cents,
                max_allocated_vram_deci_gb: self.config.max_allocated_vram_deci_gb,
            },
            reputation: HostReputation {
                uptime_basis_points: 10000,
                p95_latency_ms: 0,
                jobs_completed: 0,
                tier: String::from_str("Community Node"),
            },
            total_earned_usd_cents: 0,
            pending_payout_usd_cents: 0,
        }
    }

    /// Turns sharing on when off and off when on, and reports the new status.
    pub fn toggle_sharing(&mut self) -> (s: MarketplaceHostStatus)
        ensures
            sharing_toggled(old(self)@, final(self)@),
            host_status_of(final(self)@, s),
    {
        self.sharing_active = !self.sharing_active;
        self.get_status()
    }
}

} // verus!
