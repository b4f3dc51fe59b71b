//! The decisions of the auto-accept service: what each event of the client, each timer
//! tick and each command does to its state, and when a ready check is to be accepted.
//!
//! Times come in two clocks: `mono`, milliseconds on a monotonic clock, measures the
//! queue and the spacing of accepts; `now`, milliseconds since the Unix epoch, stamps
//! the state shown to the user.
use crate::lcu::client;
use crate::lcu::discovery::LcuCredentials;
use crate::json::JsonValue;
use crate::lcu::websocket::{self, EventView, LcuEvent};
use crate::lcu::types::{self, GameflowPhase, QueueType};
use crate::state::{AppState, ConnectionStatus, MatchPhase};
use vstd::prelude::*;

verus! {

/// The least time between two attempts to accept, in milliseconds.
pub const ACCEPT_DEBOUNCE_MS: u64 = 1500;

/// The service's state and the clocks it keeps.
#[derive(Debug)]
pub struct AutoAcceptService {
    pub state: AppState,
    /// When the current queue started (`mono`), while the player is in a queue.
    pub queue_started_at: Option<u64>,
    /// When the last attempt to accept was made (`mono`).
    pub last_accept_at: Option<u64>,
    pub notifications_enabled: bool,
}

/// What to do about a ready check that can be accepted.
#[derive(Debug, Clone, Copy, PartialEq, Eq, Structural)]
pub enum AcceptDecision {
    /// Leave it: auto-accept is off, or an attempt was made too recently.
    Skip,
    /// Post the accept request (to [`client::accept_path`]); `notify` says whether to
    /// show a notification once it succeeds.
    Accept { notify: bool },
}

/// What came of an accept request.
#[derive(Debug, Clone, Copy, PartialEq, Eq, Structural)]
pub enum AcceptReport {
    /// The client took it; the new number of accepted matches.
    Accepted { count: u64 },
    /// The client answered with a status that is not a success.
    Refused,
    /// The request did not go through.
    Failed,
}

/// What the event loop is to do after the service took in an event.
#[derive(Debug, Clone, PartialEq)]
pub enum ServiceAction {
    /// Send the accept request; `notify` as in [`AcceptDecision::Accept`].
    SendAccept { notify: bool },
    /// Show the new state.
    Publish(AppState),
    /// Nothing.
    Nothing,
}

/// The match phase shown for a gameflow phase.
pub open spec fn match_phase_of(p: GameflowPhase) -> MatchPhase {
    match p {
        GameflowPhase::Matchmaking => MatchPhase::InQueue,
        GameflowPhase::ReadyCheck => MatchPhase::ReadyCheck,
        GameflowPhase::ChampSelect => MatchPhase::InChampSelect,
        GameflowPhase::InProgress | GameflowPhase::GameStart | GameflowPhase::Reconnect
        | GameflowPhase::WaitingForStats => MatchPhase::InGame,
        GameflowPhase::PreEndOfGame | GameflowPhase::EndOfGame => MatchPhase::EndOfGame,
        _ => MatchPhase::Idle,
    }
}

fn match_phase_for(p: GameflowPhase) -> (r: MatchPhase)
    ensures
        r == match_phase_of(p),
{
    match p {
        GameflowPhase::Matchmaking => MatchPhase::InQueue,
        GameflowPhase::ReadyCheck => MatchPhase::ReadyCheck,
        GameflowPhase::ChampSelect => MatchPhase::InChampSelect,
        GameflowPhase::InProgress | GameflowPhase::GameStart | GameflowPhase::Reconnect
        | GameflowPhase::WaitingForStats => MatchPhase::InGame,
        GameflowPhase::PreEndOfGame | GameflowPhase::EndOfGame => MatchPhase::EndOfGame,
        _ => MatchPhase::Idle,
    }
}

/// Time passed from `since` to `now`; none when `now` is earlier.
pub open spec fn elapsed_ms(since: u64, now: u64) -> u64 {
    if now >= since {
        (now - since) as u64
    } else {
        0
    }
}

fn elapsed(since: u64, now: u64) -> (r: u64)
    ensures
        r == elapsed_ms(since, now),
{
    if now >= since {
        now - since
    } else {
        0
    }
}

/// The text shown when an accept request fails.
pub open spec fn accept_failure_text(err: Seq<char>) -> Seq<char> {
    "Accept failed: "@ + err
}

/// The state with no client: not connected, idle, no queue, the client's phase `None`.
pub open spec fn cleared(old: AppState, new: AppState, status: ConnectionStatus, now: i64) -> bool {
    &&& new == (AppState {
        connection_status: status,
        client_port: None,
        client_source: None,
        match_phase: MatchPhase::Idle,
        queue_type: QueueType::Unknown,
        queue_duration_sec: 0,
        raw_phase: new.raw_phase,
        last_error: new.last_error,
        updated_at: now,
        ..old
    })
    &&& new.raw_phase@ == "None"@
}


/// `new` is `old` after the client reported the gameflow phase `raw` at `mono` (`now` on
/// the wall clock): the match phase follows the phase; entering a queue starts its timer,
/// staying in it keeps the timer, leaving it stops the timer and clears the queue time.
pub open spec fn phase_handled(
    old: AutoAcceptService,
    raw: Seq<char>,
    mono: u64,
    now: i64,
    new: AutoAcceptService,
) -> bool {
    let phase = types::phase_of_text(raw);
    let in_queue = phase == GameflowPhase::Matchmaking;
    &&& new.queue_started_at == if in_queue {
        match old.queue_started_at {
            Some(t) => Some(t),
            None => Some(mono),
        }
    } else {
        None
    }
    &&& new.state == (AppState {
        match_phase: match_phase_of(phase),
        queue_duration_sec: if in_queue {
            old.state.queue_duration_sec
        } else {
            0
        },
        raw_phase: new.state.raw_phase,
        updated_at: now,
        ..old.state
    })
    &&& new.state.raw_phase@ == raw
    &&& new.last_accept_at == old.last_accept_at
    &&& new.notifications_enabled == old.notifications_enabled
}

/// `new` is `old` after the queue timer ticked at `mono`: while a queue is timed, the
/// queue time becomes the whole seconds since it started, and `changed` says whether
/// that changed it (then the state is stamped `now`).
pub open spec fn ticked(
    old: AutoAcceptService,
    mono: u64,
    now: i64,
    new: AutoAcceptService,
    changed: bool,
) -> bool {
    &&& new.queue_started_at == old.queue_started_at
    &&& new.last_accept_at == old.last_accept_at
    &&& new.notifications_enabled == old.notifications_enabled
    &&& match old.queue_started_at {
        Some(start) => {
            let secs = (elapsed_ms(start, mono) / 1000) as u64;
            &&& changed == (secs != old.state.queue_duration_sec)
            &&& new.state == if changed {
                AppState { queue_duration_sec: secs, updated_at: now, ..old.state }
            } else {
                old.state
            }
        },
        None => !changed && new.state == old.state,
    }
}

/// `new` and `r` are what a ready check that can be accepted at `mono` does to `old`:
/// when auto-accept is on and no attempt was made in the last 1.5 seconds, an attempt
/// is made and recorded; otherwise nothing happens.
pub open spec fn accept_decided(
    old: AutoAcceptService,
    mono: u64,
    new: AutoAcceptService,
    r: AcceptDecision,
) -> bool {
    if old.may_accept(mono) {
        &&& r == AcceptDecision::Accept { notify: old.notifications_enabled }
        &&& new == (AutoAcceptService { last_accept_at: Some(mono), ..old })
    } else {
        r is Skip && new == old
    }
}

/// `new` and `r` are what the end of an accept request does to `old`: a success (2xx)
/// counts the match (saturating), a failed request shows its error, any other status
/// changes nothing.
pub open spec fn accept_recorded(
    old: AutoAcceptService,
    outcome: Result<u16, String>,
    now: i64,
    new: AutoAcceptService,
    r: AcceptReport,
) -> bool {
    &&& new.queue_started_at == old.queue_started_at
    &&& new.last_accept_at == old.last_accept_at
    &&& new.notifications_enabled == old.notifications_enabled
    &&& match outcome {
        Ok(status) => if 200 <= status <= 299 {
            let count = old.state.accepted_count.saturating_add(1);
            &&& new.state == (AppState { accepted_count: count, updated_at: now, ..old.state })
            &&& r == (AcceptReport::Accepted { count })
        } else {
            new.state == old.state && r is Refused
        },
        Err(e) => {
            &&& new.state == (AppState {
                last_error: new.state.last_error,
                updated_at: now,
                ..old.state
            })
            &&& new.state.last_error matches Some(m) && m@ == accept_failure_text(e@)
            &&& r is Failed
        },
    }
}


/// Attempts to accept are at least 1.5 seconds apart: while the last attempt recorded
/// is the one at `t1`, a ready check at any `t2` before `t1` + 1.5 s is left alone.
pub proof fn lemma_accepts_are_spaced(
    s: AutoAcceptService,
    t1: u64,
    t2: u64,
    new: AutoAcceptService,
    r: AcceptDecision,
)
    requires
        s.last_accept_at == Some(t1),
        t2 < t1 + 1500,
        accept_decided(s, t2, new, r),
    ensures
        r is Skip,
        new == s,
{
}

/// With auto-accept off, no ready check is accepted and nothing changes.
pub proof fn lemma_disabled_never_accepts(
    s: AutoAcceptService,
    mono: u64,
    new: AutoAcceptService,
    r: AcceptDecision,
)
    requires
        !s.state.auto_accept_enabled,
        accept_decided(s, mono, new, r),
    ensures
        r is Skip,
        new == s,
{
}

/// With auto-accept on, a ready check is accepted once 1.5 seconds have passed since the
/// last attempt, or when none was made; the attempt is recorded at its time.
pub proof fn lemma_accepts_when_due(
    s: AutoAcceptService,
    mono: u64,
    new: AutoAcceptService,
    r: AcceptDecision,
)
    requires
        s.state.auto_accept_enabled,
        s.last_accept_at matches Some(last) ==> mono >= last + 1500,
        accept_decided(s, mono, new, r),
    ensures
        r is Accept,
        new.last_accept_at == Some(mono),
{
}

/// A successful accept counts exactly one more match (below the counter's limit).
pub proof fn lemma_success_counts_one(
    s: AutoAcceptService,
    status: u16,
    now: i64,
    new: AutoAcceptService,
    r: AcceptReport,
)
    requires
        200 <= status <= 299,
        s.state.accepted_count < u64::MAX,
        accept_recorded(s, Ok(status), now, new, r),
    ensures
        new.state.accepted_count == s.state.accepted_count + 1,
        r == (AcceptReport::Accepted { count: new.state.accepted_count }),
{
}

/// A failed or refused accept leaves the count of accepted matches as it was.
pub proof fn lemma_failure_counts_nothing(
    s: AutoAcceptService,
    outcome: Result<u16, String>,
    now: i64,
    new: AutoAcceptService,
    r: AcceptReport,
)
    requires
        !(outcome matches Ok(status) && 200 <= status <= 299),
        accept_recorded(s, outcome, now, new, r),
    ensures
        new.state.accepted_count == s.state.accepted_count,
        !(r is Accepted),
{
}

/// The queue time counts from when the queue was entered: entering a queue at `t0`,
/// staying in it through later reports, a tick at `t` shows the whole seconds from
/// `t0` to `t`.
pub proof fn lemma_queue_time_counts_from_entry(
    s0: AutoAcceptService,
    t0: u64,
    n0: i64,
    s1: AutoAcceptService,
    t1: u64,
    n1: i64,
    s2: AutoAcceptService,
    t: u64,
    n2: i64,
    s3: AutoAcceptService,
    changed: bool,
)
    requires
        s0.queue_started_at is None,
        phase_handled(s0, "Matchmaking"@, t0, n0, s1),
        phase_handled(s1, "Matchmaking"@, t1, n1, s2),
        ticked(s2, t, n2, s3, changed),
        t0 <= t,
    ensures
        s2.queue_started_at == Some(t0),
        s3.state.queue_duration_sec == (t - t0) / 1000,
{
    types::lemma_phase_name_round_trip(GameflowPhase::Matchmaking);
}

/// Leaving the queue stops its timer: after any phase other than matchmaking the queue
/// time is zero and ticks leave it so.
pub proof fn lemma_leaving_queue_stops_timer(
    s0: AutoAcceptService,
    raw: Seq<char>,
    t0: u64,
    n0: i64,
    s1: AutoAcceptService,
    t: u64,
    n1: i64,
    s2: AutoAcceptService,
    changed: bool,
)
    requires
        types::phase_of_text(raw) != GameflowPhase::Matchmaking,
        phase_handled(s0, raw, t0, n0, s1),
        ticked(s1, t, n1, s2, changed),
    ensures
        s1.queue_started_at is None,
        s2.state.queue_duration_sec == 0,
        !changed,
        s2 == s1,
{
}

/// `new` and `r` are what an event of the client at `mono` (`now` on the wall clock) does
/// to `old`: a ready check that can be accepted is accepted when due (see
/// [`accept_decided`]), one that cannot changes nothing; a phase is handled as in
/// [`phase_handled`]; a queue id sets the queue type.
pub open spec fn event_handled(
    old: AutoAcceptService,
    event: EventView,
    mono: u64,
    now: i64,
    new: AutoAcceptService,
    r: ServiceAction,
) -> bool {
    match event {
        EventView::ReadyCheck(ready) => if ready && old.may_accept(mono) {
            &&& r == (ServiceAction::SendAccept { notify: old.notifications_enabled })
            &&& new == (AutoAcceptService {
                last_accept_at: Some(mono),
                ..old
            })
        } else {
            new == old && r is Nothing
        },
        EventView::GameflowPhase(raw) => phase_handled(old, raw, mono, now, new)
            && r == ServiceAction::Publish(new.state),
        EventView::QueueId(id) => new.state == (AppState {
            queue_type: types::queue_type_of(id),
            updated_at: now,
            ..old.state
        }) && new.queue_started_at == old.queue_started_at
            && new.last_accept_at == old.last_accept_at
            && new.notifications_enabled == old.notifications_enabled
            && r == ServiceAction::Publish(new.state),
    }
}

/// An open ready check is accepted: when the socket reports a ready check whose `state`
/// is `InProgress` and whose `playerResponse` is `None`, auto-accept is on and no attempt
/// was made in the last 1.5 seconds, the service sends the accept request and records
/// the attempt.
pub proof fn lemma_open_ready_check_is_accepted(
    payload: JsonValue,
    data: JsonValue,
    s: AutoAcceptService,
    mono: u64,
    now: i64,
    new: AutoAcceptService,
    r: ServiceAction,
)
    requires
        websocket::event_in_message(payload) matches Some(event) && websocket::text_or_empty(
            event.get_spec("uri"@),
        ) == "/lol-matchmaking/v1/ready-check"@ && event.get_spec("data"@) == Some(data),
        websocket::text_or_empty(data.get_spec("state"@)) == "InProgress"@,
        websocket::text_or_empty(data.get_spec("playerResponse"@)) == "None"@,
        s.may_accept(mono),
        websocket::event_of(payload) matches Some(ev) && event_handled(s, ev, mono, now, new, r),
    ensures
        r == (ServiceAction::SendAccept { notify: s.notifications_enabled }),
        new.last_accept_at == Some(mono),
{
}

/// A ready check that the player has answered, or that is not in progress, is left
/// alone: handling it changes nothing and sends nothing.
pub proof fn lemma_answered_ready_check_is_left(
    payload: JsonValue,
    data: JsonValue,
    s: AutoAcceptService,
    mono: u64,
    now: i64,
    new: AutoAcceptService,
    r: ServiceAction,
)
    requires
        websocket::event_in_message(payload) matches Some(event) && websocket::text_or_empty(
            event.get_spec("uri"@),
        ) == "/lol-matchmaking/v1/ready-check"@ && event.get_spec("data"@) == Some(data),
        websocket::text_or_empty(data.get_spec("state"@)) != "InProgress"@
            || websocket::text_or_empty(data.get_spec("playerResponse"@)) != "None"@,
        websocket::event_of(payload) matches Some(ev) && event_handled(s, ev, mono, now, new, r),
    ensures
        r is Nothing,
        new == s,
{
}

impl AutoAcceptService {
    /// Whether a ready check that can be accepted at `mono` is to be accepted:
    /// auto-accept is on and no attempt was made in the last 1.5 seconds.
    pub open spec fn may_accept(&self, mono: u64) -> bool {
        &&& self.state.auto_accept_enabled
        &&& match self.last_accept_at {
            Some(last) => elapsed_ms(last, mono) >= ACCEPT_DEBOUNCE_MS,
            None => true,
        }
    }

    /// A service with the given state, no queue timed and no accept attempted.
    pub fn new(initial: AppState, notifications_enabled: bool) -> (r: Self)
        ensures
            r.state == initial,
            r.queue_started_at is None,
            r.last_accept_at is None,
            r.notifications_enabled == notifications_enabled,
    {
        AutoAcceptService {
            state: initial,
            queue_started_at: None,
            last_accept_at: None,
            notifications_enabled,
        }
    }

    /// A copy of the state.
    pub fn get_state(&self) -> (r: AppState)
        ensures
            r == self.state,
    {
        self.state.snapshot()
    }

    /// Turns the notification after an accept on or off.
    pub fn set_notifications_enabled(&mut self, enabled: bool)
        ensures
            *final(self) == (AutoAcceptService { notifications_enabled: enabled, ..*old(self) }),
    {
        self.notifications_enabled = enabled;
    }

    /// Turns auto-accept on or off; the new state.
    pub fn set_auto_accept(&mut self, enabled: bool, now: i64) -> (r: AppState)
        ensures
            final(self).state == (AppState {
                auto_accept_enabled: enabled,
                updated_at: now,
                ..old(self).state
            }),
            final(self).queue_started_at == old(self).queue_started_at,
            final(self).last_accept_at == old(self).last_accept_at,
            final(self).notifications_enabled == old(self).notifications_enabled,
            r == final(self).state,
    {
        self.state.auto_accept_enabled = enabled;
        self.state.updated_at = now;
        self.state.snapshot()
    }

    /// Sets the number of accepted matches back to zero; the new state.
    pub fn reset_accepted_count(&mut self, now: i64) -> (r: AppState)
        ensures
            final(self).state == (AppState { accepted_count: 0, updated_at: now, ..old(self).state }),
            final(self).queue_started_at == old(self).queue_started_at,
            final(self).last_accept_at == old(self).last_accept_at,
            final(self).notifications_enabled == old(self).notifications_enabled,
            r == final(self).state,
    {
        self.state.accepted_count = 0;
        self.state.updated_at = now;
        self.state.snapshot()
    }

    /// Marks the service running and searching for the client. Returns `false`, and
    /// changes nothing, when it was running already: then no second worker is started.
    pub fn start(&mut self) -> (started: bool)
        ensures
            started == !old(self).state.running,
            old(self).state.running ==> *final(self) == *old(self),
            !old(self).state.running ==> final(self).state == (AppState {
                running: true,
                connection_status: ConnectionStatus::Searching,
                last_error: None,
                ..old(self).state
            }),
            final(self).queue_started_at == old(self).queue_started_at,
            final(self).last_accept_at == old(self).last_accept_at,
            final(self).notifications_enabled == old(self).notifications_enabled,
    {
        if self.state.running {
            return false;
        }
        self.state.running = true;
        self.state.connection_status = ConnectionStatus::Searching;
        self.state.last_error = None;
        true
    }

    /// The state of a stopped service: not running, with no client, queue or phase; the
    /// new state. Only the state changes here: which tasks end is up to the caller.
    pub fn stop(&mut self, now: i64) -> (r: AppState)
        ensures
            cleared(
                (AppState { running: false, ..old(self).state }),
                final(self).state,
                ConnectionStatus::Stopped,
                now,
            ),
            final(self).state.last_error == old(self).state.last_error,
            final(self).queue_started_at is None,
            final(self).last_accept_at == old(self).last_accept_at,
            final(self).notifications_enabled == old(self).notifications_enabled,
            r == final(self).state,
    {
        self.state.running = false;
        self.state.connection_status = ConnectionStatus::Stopped;
        self.state.match_phase = MatchPhase::Idle;
        self.state.queue_type = QueueType::Unknown;
        self.state.client_port = None;
        self.state.client_source = None;
        self.state.queue_duration_sec = 0;
        self.queue_started_at = None;
        self.state.raw_phase = "None".to_owned();
        self.state.updated_at = now;
        self.state.snapshot()
    }

    /// No client was found: searching, with no client, queue or phase; the new state.
    pub fn client_searching(&mut self, now: i64) -> (r: AppState)
        ensures
            cleared(old(self).state, final(self).state, ConnectionStatus::Searching, now),
            final(self).state.last_error == old(self).state.last_error,
            final(self).queue_started_at == old(self).queue_started_at,
            final(self).last_accept_at == old(self).last_accept_at,
            final(self).notifications_enabled == old(self).notifications_enabled,
            r == final(self).state,
    {
        self.state.connection_status = ConnectionStatus::Searching;
        self.state.client_port = None;
        self.state.client_source = None;
        self.state.match_phase = MatchPhase::Idle;
        self.state.queue_type = QueueType::Unknown;
        self.state.queue_duration_sec = 0;
        self.state.raw_phase = "None".to_owned();
        self.state.updated_at = now;
        self.state.snapshot()
    }

    /// A client was found: connecting to it; the new state.
    pub fn client_found(&mut self, creds: &LcuCredentials, now: i64) -> (r: AppState)
        ensures
            final(self).state == (AppState {
                connection_status: ConnectionStatus::Connecting,
                client_port: Some(creds.port),
                client_source: final(self).state.client_source,
                last_error: None,
                updated_at: now,
                ..old(self).state
            }),
            final(self).state.client_source matches Some(s) && s@ == creds.source@,
            final(self).queue_started_at == old(self).queue_started_at,
            final(self).last_accept_at == old(self).last_accept_at,
            final(self).notifications_enabled == old(self).notifications_enabled,
            r == final(self).state,
    {
        self.state.connection_status = ConnectionStatus::Connecting;
        self.state.client_port = Some(creds.port);
        self.state.client_source = Some(creds.source.to_owned());
        self.state.last_error = None;
        self.state.updated_at = now;
        self.state.snapshot()
    }

    /// The session with the client is up; the new state.
    pub fn session_connected(&mut self, now: i64) -> (r: AppState)
        ensures
            final(self).state == (AppState {
                connection_status: ConnectionStatus::Connected,
                last_error: None,
                updated_at: now,
                ..old(self).state
            }),
            final(self).queue_started_at == old(self).queue_started_at,
            final(self).last_accept_at == old(self).last_accept_at,
            final(self).notifications_enabled == old(self).notifications_enabled,
            r == final(self).state,
    {
        self.state.connection_status = ConnectionStatus::Connected;
        self.state.last_error = None;
        self.state.updated_at = now;
        self.state.snapshot()
    }

    /// The session ended, with the error that ended it if any: disconnected, with no
    /// client, queue or phase; the error, if any, is shown.
    pub fn session_ended(&mut self, error: Option<String>, now: i64) -> (r: AppState)
        ensures
            cleared(old(self).state, final(self).state, ConnectionStatus::Disconnected, now),
            final(self).state.last_error == match error {
                Some(e) => Some(e),
                None => old(self).state.last_error,
            },
            final(self).queue_started_at == old(self).queue_started_at,
            final(self).last_accept_at == old(self).last_accept_at,
            final(self).notifications_enabled == old(self).notifications_enabled,
            r == final(self).state,
    {
        self.state.connection_status = ConnectionStatus::Disconnected;
        self.state.client_port = None;
        self.state.client_source = None;
        self.state.match_phase = MatchPhase::Idle;
        self.state.queue_type = QueueType::Unknown;
        self.state.queue_duration_sec = 0;
        self.state.raw_phase = "None".to_owned();
        if let Some(e) = error {
            self.state.last_error = Some(e);
        }
        self.state.updated_at = now;
        self.state.snapshot()
    }

    /// The client reports the gameflow phase `raw`. Entering a queue starts its timer,
    /// staying in it keeps the timer, leaving it stops the timer and clears the queue
    /// time; the match phase follows the gameflow phase. The new state.
    pub fn handle_phase(&mut self, raw: &str, mono: u64, now: i64) -> (r: AppState)
        ensures
            phase_handled(*old(self), raw@, mono, now, *final(self)),
            r == final(self).state,
    {
        let phase = GameflowPhase::from_str(raw);
        let is_in_queue = phase.is_in_queue();
        if is_in_queue && self.queue_started_at.is_none() {
            self.queue_started_at = Some(mono);
        }
        if !is_in_queue {
            self.queue_started_at = None;
            self.state.queue_duration_sec = 0;
        }
        self.state.match_phase = match_phase_for(phase);
        self.state.raw_phase = raw.to_owned();
        self.state.updated_at = now;
        self.state.snapshot()
    }

    /// The queue timer ticks: while a queue is timed, the queue time becomes the whole
    /// seconds since it started. Returns whether the state changed (and is to be shown).
    pub fn tick(&mut self, mono: u64, now: i64) -> (changed: bool)
        ensures
            ticked(*old(self), mono, now, *final(self), changed),
    {
        match self.queue_started_at {
            Some(start) => {
                let secs = elapsed(start, mono) / 1000;
                if self.state.queue_duration_sec != secs {
                    self.state.queue_duration_sec = secs;
                    self.state.updated_at = now;
                    true
                } else {
                    false
                }
            },
            None => false,
        }
    }

    /// The session names its queue; the new state.
    pub fn queue_identified(&mut self, id: i64, now: i64) -> (r: AppState)
        ensures
            final(self).state == (AppState {
                queue_type: types::queue_type_of(id),
                updated_at: now,
                ..old(self).state
            }),
            final(self).queue_started_at == old(self).queue_started_at,
            final(self).last_accept_at == old(self).last_accept_at,
            final(self).notifications_enabled == old(self).notifications_enabled,
            r == final(self).state,
    {
        self.state.queue_type = QueueType::from_queue_id(id);
        self.state.updated_at = now;
        self.state.snapshot()
    }

    /// Takes in an event of the client: a ready check that can be accepted goes to
    /// [`Self::try_accept`], a phase to [`Self::handle_phase`], a queue id to
    /// [`Self::queue_identified`]; a ready check that cannot be accepted changes nothing.
    pub fn on_event(&mut self, event: &LcuEvent, mono: u64, now: i64) -> (r: ServiceAction)
        ensures
            event_handled(*old(self), event@, mono, now, *final(self), r),
    {
        match event {
            LcuEvent::ReadyCheck { ready_to_accept } => {
                if *ready_to_accept {
                    match self.try_accept(mono) {
                        AcceptDecision::Accept { notify } => ServiceAction::SendAccept { notify },
                        AcceptDecision::Skip => ServiceAction::Nothing,
                    }
                } else {
                    ServiceAction::Nothing
                }
            },
            LcuEvent::GameflowPhase(raw) => ServiceAction::Publish(
                self.handle_phase(raw.as_str(), mono, now),
            ),
            LcuEvent::QueueId(id) => ServiceAction::Publish(self.queue_identified(*id, now)),
        }
    }

    /// A ready check can be accepted at `mono`. Accepts when auto-accept is on and no
    /// attempt was made in the last 1.5 seconds, and then records the attempt.
    pub fn try_accept(&mut self, mono: u64) -> (r: AcceptDecision)
        ensures
            accept_decided(*old(self), mono, *final(self), r),
    {
        if !self.state.auto_accept_enabled {
            return AcceptDecision::Skip;
        }
        if let Some(last) = self.last_accept_at {
            if elapsed(last, mono) < ACCEPT_DEBOUNCE_MS {
                return AcceptDecision::Skip;
            }
        }
        self.last_accept_at = Some(mono);
        AcceptDecision::Accept { notify: self.notifications_enabled }
    }

    /// The accept request ended with an HTTP status, or with an error. A success (2xx)
    /// counts the match; a failed request is shown as the last error; any other status
    /// changes nothing.
    pub fn accept_finished(&mut self, outcome: Result<u16, String>, now: i64) -> (r: AcceptReport)
        ensures
            accept_recorded(*old(self), outcome, now, *final(self), r),
    {
        match outcome {
            Ok(status) => {
                if client::is_success(status) || status == 204 {
                    let count = self.state.accepted_count.saturating_add(1);
                    self.state.accepted_count = count;
                    self.state.updated_at = now;
                    AcceptReport::Accepted { count }
                } else {
                    AcceptReport::Refused
                }
            },
            Err(e) => {
                let mut message = "Accept failed: ".to_owned();
                message.push_str(e.as_str());
                self.state.last_error = Some(message);
                self.state.updated_at = now;
                AcceptReport::Failed
            },
        }
    }
}

} // verus!

verus! {

/// The queue is shown exactly while the queue timer runs: after the client reports a
/// phase, the match phase is `InQueue` if and only if that phase is matchmaking, and if
/// and only if a queue start time is kept.
pub proof fn lemma_in_queue_exactly_while_timed(
    old: AutoAcceptService,
    raw: Seq<char>,
    mono: u64,
    now: i64,
    new: AutoAcceptService,
)
    requires
        phase_handled(old, raw, mono, now, new),
    ensures
        (new.state.match_phase == MatchPhase::InQueue) <==> (types::phase_of_text(raw)
            == GameflowPhase::Matchmaking),
        (new.state.match_phase == MatchPhase::InQueue) <==> new.queue_started_at is Some,
        new.state.match_phase != MatchPhase::InQueue ==> new.state.queue_duration_sec == 0,
{
}

/// Outside a queue, a ready check, champion select and a game (no phase, the lobby, a
/// tournament check-in, a failed launch, an error, or a phase not known), the match phase
/// shown is idle.
pub proof fn lemma_idle_outside_match(
    old: AutoAcceptService,
    raw: Seq<char>,
    mono: u64,
    now: i64,
    new: AutoAcceptService,
)
    requires
        phase_handled(old, raw, mono, now, new),
        ({
            let p = types::phase_of_text(raw);
            p == GameflowPhase::NoPhase || p == GameflowPhase::Lobby || p
                == GameflowPhase::CheckedIntoTournament || p == GameflowPhase::FailedToLaunch || p
                == GameflowPhase::TerminatedInError || p == GameflowPhase::Unknown
        }),
    ensures
        new.state.match_phase == MatchPhase::Idle,
        new.queue_started_at is None,
{
}

/// Every queue id from the session is taken in: the queue type becomes the id's category
/// (`Unknown` for an id in none of the lists), the state is stamped and shown, and nothing
/// else changes.
pub proof fn lemma_queue_id_always_shown(
    old: AutoAcceptService,
    id: i64,
    mono: u64,
    now: i64,
    new: AutoAcceptService,
    r: ServiceAction,
)
    requires
        event_handled(old, EventView::QueueId(id), mono, now, new, r),
    ensures
        new.state.queue_type == types::queue_type_of(id),
        !types::tft_queue_ids().contains(id) && !types::aram_queue_ids().contains(id)
            && !types::league_queue_ids().contains(id) ==> new.state.queue_type
            == QueueType::Unknown,
        new.state.updated_at == now,
        r == ServiceAction::Publish(new.state),
        new.state == (AppState { queue_type: new.state.queue_type, updated_at: now, ..old.state }),
        new.queue_started_at == old.queue_started_at,
        new.last_accept_at == old.last_accept_at,
{
    types::lemma_queue_categories(id);
}

/// A reported phase is always taken in and shown, whatever its name: the raw phase shown
/// is the reported text and the state is stamped.
pub proof fn lemma_phase_event_always_shown(
    old: AutoAcceptService,
    raw: Seq<char>,
    mono: u64,
    now: i64,
    new: AutoAcceptService,
    r: ServiceAction,
)
    requires
        event_handled(old, EventView::GameflowPhase(raw), mono, now, new, r),
    ensures
        new.state.raw_phase@ == raw,
        new.state.updated_at == now,
        r == ServiceAction::Publish(new.state),
{
}

} // verus!

verus! {

/// A state with no client: the given status, no port or source, idle, no queue type,
/// no queue time, the client's phase `None`, stamped `now`; running, auto-accept and the
/// count of accepted matches as they were.
pub proof fn lemma_cleared_shows_no_client(
    old: AppState,
    new: AppState,
    status: ConnectionStatus,
    now: i64,
)
    requires
        cleared(old, new, status, now),
    ensures
        new.connection_status == status,
        new.client_port is None,
        new.client_source is None,
        new.match_phase == MatchPhase::Idle,
        new.queue_type == QueueType::Unknown,
        new.queue_duration_sec == 0,
        new.raw_phase@ == "None"@,
        new.updated_at == now,
        new.running == old.running,
        new.auto_accept_enabled == old.auto_accept_enabled,
        new.accepted_count == old.accepted_count,
{
}

/// A failed accept request shows `Accept failed: ` and the error, and counts nothing.
pub proof fn lemma_failed_accept_shows_error(
    old: AutoAcceptService,
    e: String,
    now: i64,
    new: AutoAcceptService,
    r: AcceptReport,
)
    requires
        accept_recorded(old, Err(e), now, new, r),
    ensures
        new.state.last_error matches Some(m) && m@ == "Accept failed: "@ + e@,
        new.state.accepted_count == old.state.accepted_count,
        new.state.updated_at == now,
        r is Failed,
{
}

/// Any 2xx answer counts one more accepted match, held at the counter's limit; any other
/// status changes nothing.
pub proof fn lemma_accept_status_counts(
    old: AutoAcceptService,
    status: u16,
    now: i64,
    new: AutoAcceptService,
    r: AcceptReport,
)
    requires
        accept_recorded(old, Ok(status), now, new, r),
    ensures
        200 <= status <= 299 ==> new.state.accepted_count == if old.state.accepted_count
            == u64::MAX {
            u64::MAX
        } else {
            (old.state.accepted_count + 1) as u64
        },
        !(200 <= status <= 299) ==> new == old && r is Refused,
{
}

/// The match phases shown for the phases of a match: the ready check, champion select,
/// the game (start, in progress, reconnecting, waiting for stats) and its end.
pub proof fn lemma_match_phases_shown(p: GameflowPhase)
    ensures
        p == GameflowPhase::ReadyCheck ==> match_phase_of(p) == MatchPhase::ReadyCheck,
        p == GameflowPhase::ChampSelect ==> match_phase_of(p) == MatchPhase::InChampSelect,
        (p == GameflowPhase::GameStart || p == GameflowPhase::InProgress || p
            == GameflowPhase::Reconnect || p == GameflowPhase::WaitingForStats) ==> match_phase_of(p)
            == MatchPhase::InGame,
        (p == GameflowPhase::PreEndOfGame || p == GameflowPhase::EndOfGame) ==> match_phase_of(p)
            == MatchPhase::EndOfGame,
        match_phase_of(p) == MatchPhase::InGame ==> (p == GameflowPhase::GameStart || p
            == GameflowPhase::InProgress || p == GameflowPhase::Reconnect || p
            == GameflowPhase::WaitingForStats),
{
}

} // verus!
