//! The tunnel client's state and the status it reports.
use vstd::prelude::*;

verus! {

/// The tunnel's status as reported.
#[derive(Debug, Clone)]
pub struct TunnelStatus {
    pub connected: bool,
    pub relay_node: String,
    pub public_url: String,
    pub ping_ms: u32,
    pub bytes_proxied: u64,
}

/// The tunnel client: whether it is connected, how many bytes it proxied,
/// and the agent's slug in its public URL.
pub struct TunnelClient {
    connected: bool,
    bytes_count: u64,
    agent_slug: String,
}

/// What a tunnel client holds.
pub struct TunnelClientView {
    pub connected: bool,
    pub bytes_count: u64,
    pub agent_slug: Seq<char>,
}

impl View for TunnelClient {
    type V = TunnelClientView;

    closed spec fn view(&self) -> TunnelClientView {
        TunnelClientView {
            connected: self.connected,
            bytes_count: self.bytes_count,
            agent_slug: self.agent_slug@,
        }
    }
}

/// The public URL for an agent slug: `https://<slug>.selfapi.site/v1`.
pub open spec fn public_url_text(slug: Seq<char>) -> Seq<char> {
    "https://"@ + slug + ".selfapi.site/v1"@
}

/// Whether `s` reports the client state `v`.
pub open spec fn tunnel_status_of(v: TunnelClientView, s: TunnelStatus) -> bool {
    &&& s.connected == v.connected
    &&& s.relay_node@ == "us-east-1.relay.selfapi.net"@
    &&& s.public_url@ == public_url_text(v.agent_slug)
    &&& s.ping_ms == 24
    &&& s.bytes_proxied == v.bytes_count
}

/// Whether `after` is `before` with the connection flipped and all else kept.
pub open spec fn toggled(before: TunnelClientView, after: TunnelClientView) -> bool {
    &&& after.connected == !before.connected
    &&& after.bytes_count == before.bytes_count
    &&& after.agent_slug == before.agent_slug
}

/// Toggling the tunnel twice gives back the state it started from.
pub proof fn law_toggle_twice(a: TunnelClientView, b: TunnelClientView, c: TunnelClientView)
    requires
        toggled(a, b),
        toggled(b, c),
    ensures
        c == a,
{
}

/// Whatever the state, the status reports the agent's public URL, and it
/// reports a connection exactly when the client is connected.
pub proof fn law_status_reports_url(v: TunnelClientView, s: TunnelStatus)
    requires
        tunnel_status_of(v, s),
    ensures
        s.public_url@ == "https://"@ + v.agent_slug + ".selfapi.site/v1"@,
        s.connected == v.connected,
{
}

impl TunnelClient {
    /// A disconnected client for `agent_slug` that has proxied nothing.
    pub fn new(agent_slug: &str) -> (c: Self)
        ensures
            !c@.connected,
            c@.bytes_count == 0,
            c@.agent_slug == agent_slug@,
    {
        TunnelClient { connected: false, bytes_count: 0, agent_slug: String::from_str(agent_slug) }
    }

    /// The agent's public URL.
    pub fn public_url(&self) -> (s: String)
        ensures
            s@ == public_url_text(self@.agent_slug),
    {
        let mut s = String::from_str("https://");
        s.append(self.agent_slug.as_str());
        s.append(".selfapi.site/v1");
        s
    }

    /// The tunnel's status.
    pub fn get_status(&self) -> (s: TunnelStatus)
        ensures
            tunnel_status_of(self@, s),
    {
        TunnelStatus {
            connected: self.connected,
            relay_node: String::from_str("us-east-1.relay.selfapi.net"),
            public_url: self.public_url(),
            ping_ms: 24,
            bytes_proxied: self.bytes_count,
        }
    }

    /// Connects a disconnected tunnel or disconnects a connected one, and
    /// reports the new status.
    pub fn toggle(&mut self) -> (s: TunnelStatus)
        ensures
            toggled(old(self)@, final(self)@),
            tunnel_status_of(final(self)@, s),
    {
        self.connected = !self.connected;
        self.get_status()
    }
}

impl Default for TunnelClient {
    /// The client for the agent `gpu-node-9f82`.
    fn default() -> (c: Self)
        ensures
            !c@.connected,
            c@.bytes_count == 0,
            c@.agent_slug == "gpu-node-9f82"@,
    {
        TunnelClient::new("gpu-node-9f82")
    }
}

} // verus!
