use riot_autoaccept::json::JsonValue;
use riot_autoaccept::lcu::discovery::LcuCredentials;
use riot_autoaccept::lcu::types::QueueType;
use riot_autoaccept::lcu::websocket::{decode_event, LcuEvent};
use riot_autoaccept::service::{AcceptDecision, AcceptReport, AutoAcceptService, ServiceAction};
use riot_autoaccept::state::{AppState, ConnectionStatus, MatchPhase};
use riot_autoaccept::tray::{
    close_hides_window, menu_action, toggle_label, toggle_window_shows, MenuAction,
};

fn service() -> AutoAcceptService {
    AutoAcceptService::new(AppState::default_at(1000), true)
}

#[test]
fn default_state() {
    let s = AppState::default_at(42);
    assert!(!s.running);
    assert!(s.auto_accept_enabled);
    assert_eq!(s.connection_status, ConnectionStatus::Stopped);
    assert_eq!(s.match_phase, MatchPhase::Idle);
    assert_eq!(s.queue_type, QueueType::Unknown);
    assert_eq!(s.raw_phase, "None");
    assert_eq!(s.accepted_count, 0);
    assert_eq!(s.updated_at, 42);
}

#[test]
fn accepts_are_at_least_one_and_a_half_seconds_apart() {
    let mut svc = service();
    assert_eq!(svc.try_accept(10_000), AcceptDecision::Accept { notify: true });
    assert_eq!(svc.try_accept(10_000), AcceptDecision::Skip);
    assert_eq!(svc.try_accept(11_499), AcceptDecision::Skip);
    assert_eq!(svc.try_accept(11_500), AcceptDecision::Accept { notify: true });
    assert_eq!(svc.last_accept_at, Some(11_500));
}

#[test]
fn disabled_auto_accept_never_accepts() {
    let mut svc = service();
    let st = svc.set_auto_accept(false, 2000);
    assert!(!st.auto_accept_enabled);
    assert_eq!(st.updated_at, 2000);
    assert_eq!(svc.try_accept(50_000), AcceptDecision::Skip);
    assert_eq!(svc.last_accept_at, None);
    svc.set_auto_accept(true, 3000);
    assert_eq!(svc.try_accept(50_000), AcceptDecision::Accept { notify: true });
}

#[test]
fn notification_flag_follows_setting() {
    let mut svc = service();
    svc.set_notifications_enabled(false);
    assert_eq!(svc.try_accept(0), AcceptDecision::Accept { notify: false });
}

#[test]
fn successful_accept_counts_one_match() {
    let mut svc = service();
    assert_eq!(svc.accept_finished(Ok(204), 5000), AcceptReport::Accepted { count: 1 });
    assert_eq!(svc.accept_finished(Ok(200), 6000), AcceptReport::Accepted { count: 2 });
    assert_eq!(svc.state.accepted_count, 2);
    assert_eq!(svc.state.updated_at, 6000);
}

#[test]
fn accepted_count_saturates() {
    let mut st = AppState::default_at(0);
    st.accepted_count = u64::MAX;
    let mut svc = AutoAcceptService::new(st, false);
    assert_eq!(svc.accept_finished(Ok(204), 1), AcceptReport::Accepted { count: u64::MAX });
}

#[test]
fn refused_and_failed_accepts_count_nothing() {
    let mut svc = service();
    assert_eq!(svc.accept_finished(Ok(500), 5000), AcceptReport::Refused);
    assert_eq!(svc.state.accepted_count, 0);
    assert_eq!(svc.state.updated_at, 1000);
    assert_eq!(svc.accept_finished(Err("timed out".to_string()), 6000), AcceptReport::Failed);
    assert_eq!(svc.state.accepted_count, 0);
    assert_eq!(svc.state.last_error.as_deref(), Some("Accept failed: timed out"));
}

#[test]
fn reset_sets_count_to_zero() {
    let mut svc = service();
    svc.accept_finished(Ok(204), 5000);
    let st = svc.reset_accepted_count(7000);
    assert_eq!(st.accepted_count, 0);
    assert_eq!(svc.get_state(), st);
}

#[test]
fn queue_timer_counts_from_entering_the_queue() {
    let mut svc = service();
    let st = svc.handle_phase("Matchmaking", 1_000, 10);
    assert_eq!(st.match_phase, MatchPhase::InQueue);
    assert_eq!(st.raw_phase, "Matchmaking");
    svc.handle_phase("Matchmaking", 4_000, 11);
    assert_eq!(svc.queue_started_at, Some(1_000));
    assert!(svc.tick(3_999, 12));
    assert_eq!(svc.state.queue_duration_sec, 2);
    assert_eq!(svc.state.updated_at, 12);
    assert!(!svc.tick(3_500, 13));
    assert_eq!(svc.state.updated_at, 12);
    assert!(svc.tick(62_000, 14));
    assert_eq!(svc.state.queue_duration_sec, 61);
}

#[test]
fn leaving_the_queue_stops_the_timer() {
    let mut svc = service();
    svc.handle_phase("Matchmaking", 0, 1);
    svc.tick(5_000, 2);
    let st = svc.handle_phase("ReadyCheck", 6_000, 3);
    assert_eq!(st.match_phase, MatchPhase::ReadyCheck);
    assert_eq!(st.queue_duration_sec, 0);
    assert_eq!(svc.queue_started_at, None);
    assert!(!svc.tick(60_000, 4));
    assert_eq!(svc.state.queue_duration_sec, 0);
}

#[test]
fn match_phases_follow_gameflow() {
    let cases = [
        ("ChampSelect", MatchPhase::InChampSelect),
        ("GameStart", MatchPhase::InGame),
        ("InProgress", MatchPhase::InGame),
        ("Reconnect", MatchPhase::InGame),
        ("WaitingForStats", MatchPhase::InGame),
        ("PreEndOfGame", MatchPhase::EndOfGame),
        ("EndOfGame", MatchPhase::EndOfGame),
        ("Lobby", MatchPhase::Idle),
        ("None", MatchPhase::Idle),
        ("Something", MatchPhase::Idle),
    ];
    let mut svc = service();
    for (raw, phase) in cases {
        assert_eq!(svc.handle_phase(raw, 0, 0).match_phase, phase, "{raw}");
    }
}

#[test]
fn start_is_idempotent() {
    let mut svc = service();
    assert!(svc.start());
    assert!(svc.state.running);
    assert_eq!(svc.state.connection_status, ConnectionStatus::Searching);
    let before = svc.get_state();
    assert!(!svc.start());
    assert_eq!(svc.get_state(), before);
}

#[test]
fn stop_clears_the_session() {
    let mut svc = service();
    svc.start();
    let creds = LcuCredentials { port: 50123, token: "t".to_string(), source: "process" };
    let st = svc.client_found(&creds, 5);
    assert_eq!(st.connection_status, ConnectionStatus::Connecting);
    assert_eq!(st.client_port, Some(50123));
    assert_eq!(st.client_source.as_deref(), Some("process"));
    svc.session_connected(6);
    svc.handle_phase("Matchmaking", 100, 7);
    svc.queue_identified(420, 8);
    assert_eq!(svc.state.queue_type, QueueType::LeagueOfLegends);
    let st = svc.stop(9);
    assert!(!st.running);
    assert_eq!(st.connection_status, ConnectionStatus::Stopped);
    assert_eq!(st.match_phase, MatchPhase::Idle);
    assert_eq!(st.queue_type, QueueType::Unknown);
    assert_eq!(st.client_port, None);
    assert_eq!(st.client_source, None);
    assert_eq!(st.raw_phase, "None");
    assert_eq!(svc.queue_started_at, None);
}

#[test]
fn session_end_shows_the_error() {
    let mut svc = service();
    svc.start();
    let st = svc.session_ended(Some("ws connect".to_string()), 10);
    assert_eq!(st.connection_status, ConnectionStatus::Disconnected);
    assert_eq!(st.last_error.as_deref(), Some("ws connect"));
    let st = svc.session_ended(None, 11);
    assert_eq!(st.last_error.as_deref(), Some("ws connect"));
    let st = svc.session_connected(12);
    assert_eq!(st.last_error, None);
    let st = svc.client_searching(13);
    assert_eq!(st.connection_status, ConnectionStatus::Searching);
}

#[test]
fn events_drive_the_service() {
    let mut svc = service();
    assert_eq!(
        svc.on_event(&LcuEvent::ReadyCheck { ready_to_accept: true }, 100, 1),
        ServiceAction::SendAccept { notify: true }
    );
    assert_eq!(
        svc.on_event(&LcuEvent::ReadyCheck { ready_to_accept: true }, 200, 2),
        ServiceAction::Nothing
    );
    assert_eq!(
        svc.on_event(&LcuEvent::ReadyCheck { ready_to_accept: false }, 9_000, 3),
        ServiceAction::Nothing
    );
    match svc.on_event(&LcuEvent::GameflowPhase("InProgress".to_string()), 300, 4) {
        ServiceAction::Publish(st) => assert_eq!(st.match_phase, MatchPhase::InGame),
        other => panic!("{other:?}"),
    }
    match svc.on_event(&LcuEvent::QueueId(1090), 400, 5) {
        ServiceAction::Publish(st) => assert_eq!(st.queue_type, QueueType::Tft),
        other => panic!("{other:?}"),
    }
}

#[test]
fn tray_decisions() {
    assert_eq!(toggle_label(true), "Auto-accept: ON");
    assert_eq!(toggle_label(false), "Auto-accept: OFF");
    assert_eq!(menu_action("tray.toggle"), MenuAction::ToggleAutoAccept);
    assert_eq!(menu_action("tray.show"), MenuAction::Show);
    assert_eq!(menu_action("tray.hide"), MenuAction::Hide);
    assert_eq!(menu_action("tray.quit"), MenuAction::Quit);
    assert_eq!(menu_action("tray.other"), MenuAction::Unhandled);
    assert!(!toggle_window_shows(Some(true)));
    assert!(toggle_window_shows(Some(false)));
    assert!(toggle_window_shows(None));
}

#[test]
fn closing_hides_to_tray_unless_quitting() {
    assert!(close_hides_window(false, true));
    assert!(!close_hides_window(true, true));
    assert!(!close_hides_window(false, false));
}

#[test]
fn open_ready_check_from_socket_is_accepted() {
    let data = JsonValue::Object(vec![
        ("state".to_string(), JsonValue::Str("InProgress".to_string())),
        ("playerResponse".to_string(), JsonValue::Str("None".to_string())),
    ]);
    let event = JsonValue::Object(vec![
        ("uri".to_string(), JsonValue::Str("/lol-matchmaking/v1/ready-check".to_string())),
        ("data".to_string(), data),
    ]);
    let payload = JsonValue::Array(vec![
        JsonValue::PosInt(8),
        JsonValue::Str("OnJsonApiEvent".to_string()),
        event,
    ]);
    let decoded = decode_event(&payload).unwrap();
    let mut svc = service();
    assert_eq!(svc.on_event(&decoded, 0, 0), ServiceAction::SendAccept { notify: true });
    assert_eq!(svc.on_event(&decoded, 1_000, 0), ServiceAction::Nothing);
    svc.set_auto_accept(false, 1);
    assert_eq!(svc.on_event(&decoded, 9_000, 0), ServiceAction::Nothing);
}
