//! The state that the service shows: connection, match phase, queue and statistics.
use crate::lcu::types::QueueType;
use vstd::prelude::*;

verus! {

/// How far the service is in reaching the client.
#[derive(Debug, Clone, Copy, PartialEq, Eq, Structural)]
pub enum ConnectionStatus {
    Stopped,
    Searching,
    Connecting,
    Connected,
    Disconnected,
    Error,
}

/// Where the player is in a match, as the service shows it.
#[derive(Debug, Clone, Copy, PartialEq, Eq, Structural)]
pub enum MatchPhase {
    Idle,
    InQueue,
    ReadyCheck,
    InChampSelect,
    InGame,
    EndOfGame,
}

/// The state of the service.
#[derive(Debug, Clone, PartialEq)]
pub struct AppState {
    pub running: bool,
    pub auto_accept_enabled: bool,
    pub connection_status: ConnectionStatus,
    pub match_phase: MatchPhase,
    pub queue_type: QueueType,
    pub client_port: Option<u16>,
    pub client_source: Option<String>,
    pub queue_duration_sec: u64,
    pub accepted_count: u64,
    pub last_error: Option<String>,
    /// The client's own name of the current gameflow phase.
    pub raw_phase: String,
    /// Wall-clock time of the last change, in milliseconds since the Unix epoch.
    pub updated_at: i64,
}

/// A copy of an optional string.
pub fn copy_opt_string(o: &Option<String>) -> (r: Option<String>)
    ensures
        r == *o,
{
    match o {
        Some(s) => Some(s.clone()),
        None => None,
    }
}

impl AppState {
    /// The state before anything happened, stamped with `updated_at`: stopped, idle,
    /// auto-accept on, nothing accepted, the client's phase `None`.
    pub fn default_at(updated_at: i64) -> (r: AppState)
        ensures
            !r.running,
            r.auto_accept_enabled,
            r.connection_status == ConnectionStatus::Stopped,
            r.match_phase == MatchPhase::Idle,
            r.queue_type == QueueType::Unknown,
            r.client_port is None,
            r.client_source is None,
            r.queue_duration_sec == 0,
            r.accepted_count == 0,
            r.last_error is None,
            r.raw_phase@ == "None"@,
            r.updated_at == updated_at,
    {
        AppState {
            running: false,
            auto_accept_enabled: true,
            connection_status: ConnectionStatus::Stopped,
            match_phase: MatchPhase::Idle,
            queue_type: QueueType::Unknown,
            client_port: None,
            client_source: None,
            queue_duration_sec: 0,
            accepted_count: 0,
            last_error: None,
            raw_phase: "None".to_owned(),
            updated_at,
        }
    }

    /// A copy of the state, as it is handed out to listeners.
    pub fn snapshot(&self) -> (r: AppState)
        ensures
            r == *self,
    {
        AppState {
            running: self.running,
            auto_accept_enabled: self.auto_accept_enabled,
            connection_status: self.connection_status,
            match_phase: self.match_phase,
            queue_type: self.queue_type,
            client_port: self.client_port,
            client_source: copy_opt_string(&self.client_source),
            queue_duration_sec: self.queue_duration_sec,
            accepted_count: self.accepted_count,
            last_error: copy_opt_string(&self.last_error),
            raw_phase: self.raw_phase.clone(),
            updated_at: self.updated_at,
        }
    }
}

} // verus!
