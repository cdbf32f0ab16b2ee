//! The local server's state: whether it runs, the requests it handled, and
//! the active key and model.
use vstd::prelude::*;
use super::types::LocalServerStatus;
use crate::api_keys::storage::{local_endpoint_text, local_endpoint_url};

verus! {

/// The key and model the gateway serves.
#[derive(Debug, Clone)]
pub struct ServerRuntimeState {
    pub active_key: Option<String>,
    pub active_model: String,
}

/// An equal copy of a runtime state.
pub fn copy_runtime(s: &ServerRuntimeState) -> (r: ServerRuntimeState)
    ensures
        r == *s,
{
    ServerRuntimeState {
        active_key: match &s.active_key {
            Some(k) => Some(k.clone()),
            None => None,
        },
        active_model: s.active_model.clone(),
    }
}

/// The local server.
pub struct ServerManager {
    running: bool,
    requests_count: u64,
    runtime: ServerRuntimeState,
    port: u16,
}

/// What a server manager holds.
pub struct ServerManagerView {
    pub running: bool,
    pub requests_count: u64,
    pub runtime: ServerRuntimeState,
    pub port: u16,
}

impl View for ServerManager {
    type V = ServerManagerView;

    closed spec fn view(&self) -> ServerManagerView {
        ServerManagerView {
            running: self.running,
            requests_count: self.requests_count,
            runtime: self.runtime,
            port: self.port,
        }
    }
}

/// `count + 1`, wrapping at `u64::MAX`, as an atomic counter's `fetch_add` does.
pub open spec fn next_count(count: u64) -> u64 {
    if count == u64::MAX {
        0
    } else {
        (count + 1) as u64
    }
}

/// The runtime state after `set_active(key, model)`: each given value
/// replaces the current one.
pub open spec fn activated(s: ServerRuntimeState, key: Option<String>, model: Option<String>) -> ServerRuntimeState {
    ServerRuntimeState {
        active_key: if key is Some {
            key
        } else {
            s.active_key
        },
        active_model: match model {
            Some(m) => m,
            None => s.active_model,
        },
    }
}

/// Whether `st` reports the server `v`.
pub open spec fn server_status_of(v: ServerManagerView, st: LocalServerStatus) -> bool {
    &&& st.running == v.running
    &&& st.port == v.port
    &&& st.endpoint_url@ == local_endpoint_text(v.port)
    &&& st.active_model == Some(v.runtime.active_model)
    &&& st.requests_handled == v.requests_count
}

impl ServerManager {
    /// A stopped server on `port` that has handled nothing, with no key and
    /// `llama-3.2-3b-instruct` as its model.
    pub fn new(port: u16) -> (m: Self)
        ensures
            !m@.running,
            m@.requests_count == 0,
            m@.port == port,
            m@.runtime.active_key is None,
            m@.runtime.active_model@ == "llama-3.2-3b-instruct"@,
    {
        ServerManager {
            running: false,
            requests_count: 0,
            runtime: ServerRuntimeState {
                active_key: None,
                active_model: String::from_str("llama-3.2-3b-instruct"),
            },
            port,
        }
    }

    /// Makes the given key and model active; `None` keeps the current one.
    pub fn set_active(&mut self, active_key: Option<String>, active_model: Option<String>)
        ensures
            final(self)@.runtime == activated(old(self)@.runtime, active_key, active_model),
            final(self)@.running == old(self)@.running,
            final(self)@.requests_count == old(self)@.requests_count,
            final(self)@.port == old(self)@.port,
    {
        if active_key.is_some() {
            self.runtime.active_key = active_key;
        }
        if let Some(model) = active_model {
            self.runtime.active_model = model;
        }
    }

    /// The server's status, after making `active_model` active when given.
    pub fn get_status(&mut self, active_model: Option<String>) -> (st: LocalServerStatus)
        ensures
            final(self)@.runtime == activated(old(self)@.runtime, None, active_model),
            final(self)@.running == old(self)@.running,
            final(self)@.requests_count == old(self)@.requests_count,
            final(self)@.port == old(self)@.port,
            server_status_of(final(self)@, st),
    {
        if active_model.is_some() {
            self.set_active(None, active_model);
        }
        LocalServerStatus {
            running: self.running,
            port: self.port,
            endpoint_url: local_endpoint_url(self.port),
            active_model: Some(self.runtime.active_model.clone()),
            requests_handled: self.requests_count,
        }
    }

    /// Whether the server is listening.
    pub fn is_running(&self) -> (b: bool)
        ensures
            b == self@.running,
    {
        self.running
    }

    /// Records that the server listens.
    pub fn mark_running(&mut self)
        ensures
            final(self)@.running,
            final(self)@.requests_count == old(self)@.requests_count,
            final(self)@.runtime == old(self)@.runtime,
            final(self)@.port == old(self)@.port,
    {
        self.running = true;
    }

    /// The port the server listens on.
    pub fn port(&self) -> (p: u16)
        ensures
            p == self@.port,
    {
        self.port
    }

    /// The number of chat completions handled.
    pub fn requests_handled(&self) -> (n: u64)
        ensures
            n == self@.requests_count,
    {
        self.requests_count
    }

    /// Counts one more handled chat completion.
    pub fn record_request(&mut self)
        ensures
            final(self)@.requests_count == next_count(old(self)@.requests_count),
            final(self)@.running == old(self)@.running,
            final(self)@.runtime == old(self)@.runtime,
            final(self)@.port == old(self)@.port,
    {
        self.requests_count = if self.requests_count == u64::MAX {
            0
        } else {
            self.requests_count + 1
        };
    }

    /// The active key and model.
    pub fn runtime(&self) -> (r: ServerRuntimeState)
        ensures
            r == self@.runtime,
    {
        copy_runtime(&self.runtime)
    }
}

} // verus!
