//! The events of the client's event socket: which messages the service acts on and
//! what it reads from them.
use crate::json::JsonValue;
use crate::lcu::types::ReadyCheckState;
use vstd::prelude::*;

verus! {

/// An event of the client that the service acts on.
#[derive(Debug, Clone, PartialEq)]
pub enum LcuEvent {
    /// The ready check changed; whether it can be accepted now.
    ReadyCheck { ready_to_accept: bool },
    /// The gameflow phase changed, by its name.
    GameflowPhase(String),
    /// The session names the queue it is for.
    QueueId(i64),
}

/// An event as plain values.
pub enum EventView {
    ReadyCheck(bool),
    GameflowPhase(Seq<char>),
    QueueId(i64),
}

impl View for LcuEvent {
    type V = EventView;

    open spec fn view(&self) -> EventView {
        match self {
            LcuEvent::ReadyCheck { ready_to_accept } => EventView::ReadyCheck(*ready_to_accept),
            LcuEvent::GameflowPhase(s) => EventView::GameflowPhase(s@),
            LcuEvent::QueueId(id) => EventView::QueueId(*id),
        }
    }
}

/// The event inside a socket message: messages `[8, <topic>, <event>, ...]` carry one.
pub open spec fn event_in_message(payload: JsonValue) -> Option<JsonValue> {
    match payload {
        JsonValue::Array(a) => if a@.len() >= 3 && a@[0].i64_spec() == Some(8i64) {
            Some(a@[2])
        } else {
            None
        },
        _ => None,
    }
}

/// The text of an optional string value; empty for anything else.
pub open spec fn text_or_empty(v: Option<JsonValue>) -> Seq<char> {
    match v {
        Some(x) => match x.str_spec() {
            Some(s) => s,
            None => Seq::<char>::empty(),
        },
        None => Seq::<char>::empty(),
    }
}

/// The member `key` of an optional value.
pub open spec fn member_of(v: Option<JsonValue>, key: Seq<char>) -> Option<JsonValue> {
    match v {
        Some(x) => x.get_spec(key),
        None => None,
    }
}

/// The queue id of a session: `gameData.queue.id`, when it is an `i64`.
pub open spec fn session_queue_id(data: Option<JsonValue>) -> Option<i64> {
    match member_of(member_of(member_of(data, "gameData"@), "queue"@), "id"@) {
        Some(id) => id.i64_spec(),
        None => None,
    }
}

/// The event that a socket message carries, by the URI of its event:
/// - the ready check: ready when its `state` is `InProgress` and its `playerResponse`
///   is `None` (a missing or non-string member reads as empty);
/// - the gameflow phase: its data, when that is a string;
/// - the session: the queue id of its data.
/// Any other message carries none.
pub open spec fn event_of(payload: JsonValue) -> Option<EventView> {
    match event_in_message(payload) {
        None => None,
        Some(event) => {
            let uri = text_or_empty(event.get_spec("uri"@));
            let data = event.get_spec("data"@);
            if uri == "/lol-matchmaking/v1/ready-check"@ {
                match data {
                    Some(d) => Some(
                        EventView::ReadyCheck(
                            ReadyCheckState::ready_spec(
                                text_or_empty(d.get_spec("state"@)),
                                text_or_empty(d.get_spec("playerResponse"@)),
                            ),
                        ),
                    ),
                    None => None,
                }
            } else if uri == "/lol-gameflow/v1/gameflow-phase"@ {
                match data {
                    Some(d) => match d.str_spec() {
                        Some(s) => Some(EventView::GameflowPhase(s)),
                        None => None,
                    },
                    None => None,
                }
            } else if uri == "/lol-gameflow/v1/session"@ {
                match session_queue_id(data) {
                    Some(id) => Some(EventView::QueueId(id)),
                    None => None,
                }
            } else {
                None
            }
        },
    }
}

/// An optional event by its view.
pub open spec fn opt_event_view(e: Option<LcuEvent>) -> Option<EventView> {
    match e {
        Some(x) => Some(x@),
        None => None,
    }
}

/// The text of an optional string value, or the empty string.
fn str_or_empty(v: Option<&JsonValue>) -> (r: &str)
    ensures
        r@ == text_or_empty(crate::json::deref_opt(v)),
{
    match v {
        Some(x) => match x.as_str() {
            Some(s) => s,
            None => {
                proof { reveal_strlit(""); }
                ""
            },
        },
        None => {
            proof { reveal_strlit(""); }
            ""
        },
    }
}

/// The member `key` of an optional value.
fn member<'a>(v: Option<&'a JsonValue>, key: &str) -> (r: Option<&'a JsonValue>)
    ensures
        crate::json::deref_opt(r) == member_of(crate::json::deref_opt(v), key@),
{
    match v {
        Some(x) => x.get(key),
        None => None,
    }
}

/// The event that a decoded socket message carries, if any.
pub fn decode_event(payload: &JsonValue) -> (r: Option<LcuEvent>)
    ensures
        opt_event_view(r) == event_of(*payload),
{
    let event = match payload {
        JsonValue::Array(a) => {
            if a.len() >= 3 && a[0].as_i64() == Some(8i64) {
                &a[2]
            } else {
                return None;
            }
        },
        _ => {
            return None;
        },
    };
    let uri = str_or_empty(event.get("uri"));
    let data = event.get("data");
    if crate::text::str_eq(uri, "/lol-matchmaking/v1/ready-check") {
        match data {
            Some(d) => {
                let state = str_or_empty(d.get("state"));
                let response = str_or_empty(d.get("playerResponse"));
                let ready = crate::text::str_eq(state, "InProgress") && crate::text::str_eq(
                    response,
                    "None",
                );
                Some(LcuEvent::ReadyCheck { ready_to_accept: ready })
            },
            None => None,
        }
    } else if crate::text::str_eq(uri, "/lol-gameflow/v1/gameflow-phase") {
        match data {
            Some(d) => match d.as_str() {
                Some(phase) => Some(LcuEvent::GameflowPhase(phase.to_owned())),
                None => None,
            },
            None => None,
        }
    } else if crate::text::str_eq(uri, "/lol-gameflow/v1/session") {
        let id = member(member(member(data, "gameData"), "queue"), "id");
        match id {
            Some(v) => match v.as_i64() {
                Some(q) => Some(LcuEvent::QueueId(q)),
                None => None,
            },
            None => None,
        }
    } else {
        None
    }
}

/// The event that a socket message's text carries: none when the text is not JSON.
pub fn decode_message(text: &str) -> (r: Option<LcuEvent>)
    ensures
        opt_event_view(r) == match crate::json::json_of_text(text@) {
            Some(payload) => event_of(payload),
            None => None,
        },
{
    match crate::json::parse_json(text) {
        Some(payload) => decode_event(&payload),
        None => None,
    }
}

/// A ready-check message carries the same decision as the ready-check state that the
/// REST endpoint reports with the same `state` and `playerResponse`.
pub proof fn lemma_socket_agrees_with_ready_check_state(
    payload: JsonValue,
    data: JsonValue,
    rc: ReadyCheckState,
)
    requires
        event_in_message(payload) matches Some(event) && text_or_empty(event.get_spec("uri"@))
            == "/lol-matchmaking/v1/ready-check"@ && event.get_spec("data"@) == Some(data),
        data.get_spec("state"@) == Some(JsonValue::Str(rc.state)),
        data.get_spec("playerResponse"@) == Some(JsonValue::Str(rc.player_response)),
    ensures
        event_of(payload) == Some(
            EventView::ReadyCheck(
                ReadyCheckState::ready_spec(rc.state@, rc.player_response@),
            ),
        ),
{
}

} // verus!

verus! {

/// The URIs of the three kinds of event differ (the first two, of equal length, at the
/// character after `/lol-`).
proof fn lemma_event_uris_differ()
    ensures
        "/lol-gameflow/v1/gameflow-phase"@ != "/lol-matchmaking/v1/ready-check"@,
        "/lol-gameflow/v1/session"@ != "/lol-matchmaking/v1/ready-check"@,
        "/lol-gameflow/v1/session"@ != "/lol-gameflow/v1/gameflow-phase"@,
{
    reveal_strlit("/lol-gameflow/v1/gameflow-phase");
    reveal_strlit("/lol-matchmaking/v1/ready-check");
    reveal_strlit("/lol-gameflow/v1/session");
    assert("/lol-gameflow/v1/gameflow-phase"@[5] != "/lol-matchmaking/v1/ready-check"@[5]);
    assert("/lol-gameflow/v1/session"@.len() == 24);
    assert("/lol-gameflow/v1/gameflow-phase"@.len() == 31);
    assert("/lol-matchmaking/v1/ready-check"@.len() == 31);
}

/// A socket message `[8, <topic>, <event>, ...]` whose event is an object with the given
/// `uri` and `data` members.
pub open spec fn event_message(payload: JsonValue, uri: Seq<char>, data: JsonValue) -> bool {
    &&& payload matches JsonValue::Array(a)
    &&& a@.len() >= 3
    &&& a@[0] == JsonValue::PosInt(8)
    &&& a@[2] matches JsonValue::Object(entries)
    &&& crate::json::field_of(entries@, "uri"@) matches Some(JsonValue::Str(u)) && u@ == uri
    &&& crate::json::field_of(entries@, "data"@) == Some(data)
}

/// Every phase change is passed on: a gameflow-phase message whose data is a string
/// carries that string as the phase, whatever it is (`None` included).
pub proof fn lemma_every_phase_is_passed_on(payload: JsonValue, s: String)
    requires
        event_message(payload, "/lol-gameflow/v1/gameflow-phase"@, JsonValue::Str(s)),
    ensures
        event_of(payload) == Some(EventView::GameflowPhase(s@)),
{
    lemma_event_uris_differ();
}

/// A session message carries the queue id under `gameData.queue.id` whenever it is an
/// integer that fits `i64`, whatever its value.
pub proof fn lemma_session_queue_id_is_passed_on(payload: JsonValue, data: JsonValue, id: i64)
    requires
        event_message(payload, "/lol-gameflow/v1/session"@, data),
        data.get_spec("gameData"@) matches Some(g) && g.get_spec("queue"@) matches Some(q)
            && q.get_spec("id"@) matches Some(v) && v.i64_spec() == Some(id),
    ensures
        event_of(payload) == Some(EventView::QueueId(id)),
{
    lemma_event_uris_differ();
}

/// A ready-check message with data is always passed on, ready exactly when its `state`
/// is `InProgress` and its `playerResponse` is `None`.
pub proof fn lemma_ready_check_is_passed_on(payload: JsonValue, data: JsonValue)
    requires
        event_message(payload, "/lol-matchmaking/v1/ready-check"@, data),
    ensures
        event_of(payload) == Some(
            EventView::ReadyCheck(
                text_or_empty(data.get_spec("state"@)) == "InProgress"@ && text_or_empty(
                    data.get_spec("playerResponse"@),
                ) == "None"@,
            ),
        ),
{
}

/// A message that is not `[8, ...]` with at least three elements carries no event.
pub proof fn lemma_only_event_messages_decode(payload: JsonValue)
    requires
        !(payload matches JsonValue::Array(a) && a@.len() >= 3 && a@[0].i64_spec() == Some(8i64)),
    ensures
        event_of(payload) is None,
{
}

} // verus!
