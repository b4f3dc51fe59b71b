use riot_autoaccept::json::JsonValue;
use riot_autoaccept::lcu::client::{
    accept_path, base_url, basic_auth, gameflow_phase_path, is_success, ready_check_path,
    subscribe_message, unquote_reply, ws_url,
};
use riot_autoaccept::lcu::discovery::{
    detect_lcu, find_arg_value, from_lockfile, from_process, home_lockfile_parts,
    is_client_process, lockfile_candidates, parse_lockfile,
    LcuCredentials, ProcessInfo,
};
use riot_autoaccept::lcu::types::{GameflowPhase, QueueType, ReadyCheckState};
use riot_autoaccept::lcu::websocket::{decode_event, decode_message, LcuEvent};

fn strings(v: &[&str]) -> Vec<String> {
    v.iter().map(|s| s.to_string()).collect()
}

fn obj(members: Vec<(&str, JsonValue)>) -> JsonValue {
    JsonValue::Object(members.into_iter().map(|(k, v)| (k.to_string(), v)).collect())
}

fn s(v: &str) -> JsonValue {
    JsonValue::Str(v.to_string())
}

fn message(uri: &str, data: Option<JsonValue>) -> JsonValue {
    let mut members = vec![("eventType", s("Update")), ("uri", s(uri))];
    if let Some(d) = data {
        members.push(("data", d));
    }
    JsonValue::Array(vec![JsonValue::PosInt(8), s("OnJsonApiEvent"), obj(members)])
}

#[test]
fn gameflow_phase_from_str_reads_every_name() {
    let all = [
        ("None", GameflowPhase::NoPhase),
        ("Lobby", GameflowPhase::Lobby),
        ("Matchmaking", GameflowPhase::Matchmaking),
        ("CheckedIntoTournament", GameflowPhase::CheckedIntoTournament),
        ("ReadyCheck", GameflowPhase::ReadyCheck),
        ("ChampSelect", GameflowPhase::ChampSelect),
        ("GameStart", GameflowPhase::GameStart),
        ("FailedToLaunch", GameflowPhase::FailedToLaunch),
        ("InProgress", GameflowPhase::InProgress),
        ("Reconnect", GameflowPhase::Reconnect),
        ("WaitingForStats", GameflowPhase::WaitingForStats),
        ("PreEndOfGame", GameflowPhase::PreEndOfGame),
        ("EndOfGame", GameflowPhase::EndOfGame),
        ("TerminatedInError", GameflowPhase::TerminatedInError),
    ];
    for (name, phase) in all {
        assert_eq!(GameflowPhase::from_str(name), phase);
    }
    assert_eq!(GameflowPhase::from_str("matchmaking"), GameflowPhase::Unknown);
    assert_eq!(GameflowPhase::from_str(""), GameflowPhase::Unknown);
    assert_eq!(GameflowPhase::from_str("Unknown"), GameflowPhase::Unknown);
}

#[test]
fn only_matchmaking_is_in_queue() {
    assert!(GameflowPhase::Matchmaking.is_in_queue());
    assert!(!GameflowPhase::ReadyCheck.is_in_queue());
    assert!(!GameflowPhase::Lobby.is_in_queue());
    assert!(!GameflowPhase::Unknown.is_in_queue());
}

#[test]
fn queue_ids_map_to_categories() {
    for id in [1090, 1100, 1110, 1111, 1130, 1150, 1160, 1170, 1180, 1190] {
        assert_eq!(QueueType::from_queue_id(id), QueueType::Tft);
    }
    for id in [450, 100] {
        assert_eq!(QueueType::from_queue_id(id), QueueType::Aram);
    }
    for id in [400, 420, 430, 440, 480, 700, 830, 840, 850, 1020, 1300, 1400] {
        assert_eq!(QueueType::from_queue_id(id), QueueType::LeagueOfLegends);
    }
    for id in [0, -1, 1091, 451, 1700, i64::MAX] {
        assert_eq!(QueueType::from_queue_id(id), QueueType::Unknown);
    }
}

#[test]
fn ready_check_needs_in_progress_and_no_answer() {
    let rc = |state: &str, resp: &str| ReadyCheckState {
        state: state.to_string(),
        player_response: resp.to_string(),
    };
    assert!(rc("InProgress", "None").is_ready_to_accept());
    assert!(!rc("InProgress", "Accepted").is_ready_to_accept());
    assert!(!rc("Invalid", "None").is_ready_to_accept());
    assert!(!rc("", "").is_ready_to_accept());
}

#[test]
fn basic_auth_encodes_riot_and_token() {
    assert_eq!(basic_auth("abc"), "Basic cmlvdDphYmM=");
    assert_eq!(basic_auth("x"), "Basic cmlvdDp4");
    assert_eq!(basic_auth("tok3n-42"), "Basic cmlvdDp0b2szbi00Mg==");
    assert_eq!(basic_auth("żółw"), "Basic cmlvdDrFvMOzxYJ3");
}

#[test]
fn urls_name_the_local_port() {
    assert_eq!(base_url(50123), "https://127.0.0.1:50123");
    assert_eq!(base_url(0), "https://127.0.0.1:0");
    assert_eq!(ws_url(2999), "wss://127.0.0.1:2999/");
}

#[test]
fn get_text_reply_is_unquoted() {
    assert_eq!(unquote_reply("\"Matchmaking\""), "Matchmaking");
    assert_eq!(unquote_reply("  \"ReadyCheck\"\n"), "ReadyCheck");
    assert_eq!(unquote_reply("None"), "None");
    assert_eq!(unquote_reply(""), "");
}

#[test]
fn success_statuses_are_2xx() {
    assert!(is_success(200));
    assert!(is_success(204));
    assert!(is_success(299));
    assert!(!is_success(300));
    assert!(!is_success(199));
    assert!(!is_success(404));
}

#[test]
fn find_arg_value_takes_the_first_match() {
    let args = strings(&[
        "LeagueClientUx.exe",
        "--remoting-auth-token=abc",
        "--app-port=50123",
        "--app-port=1",
    ]);
    assert_eq!(find_arg_value(&args, "--app-port="), Some("50123".to_string()));
    assert_eq!(find_arg_value(&args, "--remoting-auth-token="), Some("abc".to_string()));
    assert_eq!(find_arg_value(&args, "--region="), None);
    assert_eq!(find_arg_value(&[], "--app-port="), None);
}

#[test]
fn client_process_names() {
    assert!(is_client_process("LeagueClientUx.exe"));
    assert!(is_client_process("leagueclientux"));
    assert!(!is_client_process("LeagueClient.exe"));
    assert!(!is_client_process("LeagueClientUxRender.exe"));
}

fn proc(name: &str, cmd: &[&str]) -> ProcessInfo {
    ProcessInfo { name: name.to_string(), cmd: strings(cmd) }
}

#[test]
fn from_process_skips_incomplete_and_foreign_processes() {
    let procs = vec![
        proc("chrome", &["--app-port=1", "--remoting-auth-token=x"]),
        proc("LeagueClientUx.exe", &["--app-port=notaport", "--remoting-auth-token=y"]),
        proc("LeagueClientUx.exe", &["--app-port=50123"]),
        proc("LEAGUECLIENTUX", &["--remoting-auth-token=tok", "--app-port=50123"]),
    ];
    let creds = from_process(&procs).unwrap();
    assert_eq!(creds, LcuCredentials { port: 50123, token: "tok".to_string(), source: "process" });
    assert_eq!(from_process(&procs[..3]), None);
}

#[test]
fn lockfile_fields() {
    assert_eq!(
        parse_lockfile("LeagueClient:12345:50123:secret:https\n"),
        Some(Some((50123, "secret".to_string())))
    );
    assert_eq!(parse_lockfile("LeagueClient:12345:port:secret:https"), Some(None));
    assert_eq!(parse_lockfile("LeagueClient:12345:50123"), None);
}

#[test]
fn from_lockfile_walks_the_candidates() {
    let files = vec![
        None,
        Some("too:short".to_string()),
        Some(" LeagueClient:1:2999:tok:https ".to_string()),
        Some("LeagueClient:1:3000:other:https".to_string()),
    ];
    let creds = from_lockfile(&files).unwrap();
    assert_eq!(creds, LcuCredentials { port: 2999, token: "tok".to_string(), source: "lockfile" });
    assert_eq!(from_lockfile(&[]), None);
}

#[test]
fn from_lockfile_stops_at_a_bad_port() {
    let files = vec![
        Some("LeagueClient:1:99999:tok:https".to_string()),
        Some("LeagueClient:1:3000:other:https".to_string()),
    ];
    assert_eq!(from_lockfile(&files), None);
}

#[test]
fn detect_lcu_prefers_the_process() {
    let procs = vec![proc("LeagueClientUx", &["--app-port=1", "--remoting-auth-token=p"])];
    let files = vec![Some("LeagueClient:1:2:l:https".to_string())];
    assert_eq!(detect_lcu(&procs, &files).unwrap().source, "process");
    assert_eq!(detect_lcu(&[], &files).unwrap().source, "lockfile");
    assert_eq!(detect_lcu(&[], &files).unwrap().port, 2);
    assert_eq!(detect_lcu(&[], &[]), None);
}

#[test]
fn decode_ready_check_events() {
    let ready = message(
        "/lol-matchmaking/v1/ready-check",
        Some(obj(vec![("state", s("InProgress")), ("playerResponse", s("None"))])),
    );
    assert_eq!(decode_event(&ready), Some(LcuEvent::ReadyCheck { ready_to_accept: true }));
    let answered = message(
        "/lol-matchmaking/v1/ready-check",
        Some(obj(vec![("state", s("InProgress")), ("playerResponse", s("Accepted"))])),
    );
    assert_eq!(decode_event(&answered), Some(LcuEvent::ReadyCheck { ready_to_accept: false }));
    let empty = message("/lol-matchmaking/v1/ready-check", Some(JsonValue::Null));
    assert_eq!(decode_event(&empty), Some(LcuEvent::ReadyCheck { ready_to_accept: false }));
    let no_data = message("/lol-matchmaking/v1/ready-check", None);
    assert_eq!(decode_event(&no_data), None);
}

#[test]
fn decode_phase_and_session_events() {
    let phase = message("/lol-gameflow/v1/gameflow-phase", Some(s("ChampSelect")));
    assert_eq!(decode_event(&phase), Some(LcuEvent::GameflowPhase("ChampSelect".to_string())));
    let not_text = message("/lol-gameflow/v1/gameflow-phase", Some(JsonValue::PosInt(3)));
    assert_eq!(decode_event(&not_text), None);
    let session = message(
        "/lol-gameflow/v1/session",
        Some(obj(vec![("gameData", obj(vec![("queue", obj(vec![("id", JsonValue::PosInt(1100))]))]))])),
    );
    assert_eq!(decode_event(&session), Some(LcuEvent::QueueId(1100)));
    let negative = message(
        "/lol-gameflow/v1/session",
        Some(obj(vec![("gameData", obj(vec![("queue", obj(vec![("id", JsonValue::NegInt(-1))]))]))])),
    );
    assert_eq!(decode_event(&negative), Some(LcuEvent::QueueId(-1)));
    let huge = message(
        "/lol-gameflow/v1/session",
        Some(obj(vec![("gameData", obj(vec![("queue", obj(vec![("id", JsonValue::PosInt(u64::MAX))]))]))])),
    );
    assert_eq!(decode_event(&huge), None);
}

#[test]
fn decode_ignores_other_messages() {
    assert_eq!(decode_event(&message("/lol-chat/v1/me", Some(s("x")))), None);
    let wrong_opcode = JsonValue::Array(vec![
        JsonValue::PosInt(5),
        s("OnJsonApiEvent"),
        obj(vec![("uri", s("/lol-gameflow/v1/gameflow-phase")), ("data", s("Lobby"))]),
    ]);
    assert_eq!(decode_event(&wrong_opcode), None);
    assert_eq!(decode_event(&JsonValue::Array(vec![JsonValue::PosInt(8), s("x")])), None);
    assert_eq!(decode_event(&obj(vec![])), None);
    assert_eq!(decode_event(&JsonValue::Float), None);
}

#[test]
fn socket_and_poll_agree_on_ready_checks() {
    for (state, resp) in [("InProgress", "None"), ("InProgress", "Declined"), ("Invalid", "None")] {
        let msg = message(
            "/lol-matchmaking/v1/ready-check",
            Some(obj(vec![("state", s(state)), ("playerResponse", s(resp))])),
        );
        let rc = ReadyCheckState { state: state.to_string(), player_response: resp.to_string() };
        assert_eq!(
            decode_event(&msg),
            Some(LcuEvent::ReadyCheck { ready_to_accept: rc.is_ready_to_accept() })
        );
    }
}

#[test]
fn decode_message_reads_socket_text() {
    let phase = r#"[8,"OnJsonApiEvent",{"data":"Lobby","eventType":"Update","uri":"/lol-gameflow/v1/gameflow-phase"}]"#;
    assert_eq!(decode_message(phase), Some(LcuEvent::GameflowPhase("Lobby".to_string())));
    let ready = r#"[8, "OnJsonApiEvent", {"uri": "/lol-matchmaking/v1/ready-check",
        "data": {"state": "InProgress", "playerResponse": "None", "timer": 3.5}}]"#;
    assert_eq!(decode_message(ready), Some(LcuEvent::ReadyCheck { ready_to_accept: true }));
    let session = r#"[8,"OnJsonApiEvent",{"uri":"/lol-gameflow/v1/session","data":{"gameData":{"queue":{"id":1700}}}}]"#;
    assert_eq!(decode_message(session), Some(LcuEvent::QueueId(1700)));
    let negative = r#"[8,"x",{"uri":"/lol-gameflow/v1/session","data":{"gameData":{"queue":{"id":-3}}}}]"#;
    assert_eq!(decode_message(negative), Some(LcuEvent::QueueId(-3)));
    let float_id = r#"[8,"x",{"uri":"/lol-gameflow/v1/session","data":{"gameData":{"queue":{"id":4.0}}}}]"#;
    assert_eq!(decode_message(float_id), None);
}

#[test]
fn decode_message_ignores_what_is_not_an_event() {
    assert_eq!(decode_message(""), None);
    assert_eq!(decode_message("not json"), None);
    assert_eq!(decode_message(r#"[8,"x",{"uri":"/lol-gameflow/v1/gameflow-phase","data":"Lobby"}"#), None);
    assert_eq!(decode_message(r#"[0,"abc",1]"#), None);
    assert_eq!(decode_message(r#"{"uri":"/lol-gameflow/v1/gameflow-phase","data":"Lobby"}"#), None);
}

#[test]
fn endpoints_and_subscription() {
    assert_eq!(ready_check_path(), "/lol-matchmaking/v1/ready-check");
    assert_eq!(accept_path(), "/lol-matchmaking/v1/ready-check/accept");
    assert_eq!(gameflow_phase_path(), "/lol-gameflow/v1/gameflow-phase");
    assert_eq!(subscribe_message(), r#"[5,"OnJsonApiEvent"]"#);
}

#[test]
fn lockfile_places() {
    assert_eq!(
        lockfile_candidates(),
        vec![
            "C:\\Riot Games\\League of Legends\\lockfile",
            "C:\\Program Files\\Riot Games\\League of Legends\\lockfile",
            "C:\\Program Files (x86)\\Riot Games\\League of Legends\\lockfile",
            "/Applications/League of Legends.app/Contents/LoL/lockfile",
        ]
    );
    assert_eq!(home_lockfile_parts(), vec!["Riot Games", "League of Legends", "lockfile"]);
}
