use riot_autoaccept::json::JsonValue;
use riot_autoaccept::settings::{
    default_language, default_true, load, save, update_accepted_count, Settings,
};

fn entry(k: &str, v: JsonValue) -> (String, JsonValue) {
    (k.to_string(), v)
}

#[test]
fn defaults() {
    let d = Settings::default();
    assert!(d.auto_accept_enabled);
    assert!(!d.start_with_windows);
    assert!(d.minimize_to_tray);
    assert!(d.show_notifications);
    assert!(!d.always_on_top);
    assert_eq!(d.language, "auto");
    assert_eq!(d.accepted_count, 0);
    assert!(default_true());
    assert_eq!(default_language(), "auto");
}

#[test]
fn empty_store_loads_defaults() {
    assert_eq!(load(&[]), Settings::default());
}

#[test]
fn load_after_save_gives_back_the_settings() {
    let s = Settings {
        auto_accept_enabled: false,
        start_with_windows: true,
        minimize_to_tray: false,
        show_notifications: false,
        always_on_top: true,
        language: "pl".to_string(),
        accepted_count: 1234,
    };
    let entries = save(&s);
    assert_eq!(entries.len(), 7);
    assert_eq!(load(&entries), s);
    assert_eq!(load(&save(&Settings::default())), Settings::default());
}

#[test]
fn save_writes_the_store_keys() {
    let entries = save(&Settings::default());
    let keys: Vec<&str> = entries.iter().map(|(k, _)| k.as_str()).collect();
    assert_eq!(
        keys,
        vec![
            "autoAcceptEnabled",
            "startWithWindows",
            "minimizeToTray",
            "showNotifications",
            "alwaysOnTop",
            "language",
            "acceptedCount"
        ]
    );
    assert_eq!(entries[5].1, JsonValue::Str("auto".to_string()));
    assert_eq!(entries[6].1, JsonValue::PosInt(0));
}

#[test]
fn values_of_the_wrong_type_are_ignored() {
    let entries = vec![
        entry("autoAcceptEnabled", JsonValue::Str("false".to_string())),
        entry("alwaysOnTop", JsonValue::Bool(true)),
        entry("language", JsonValue::PosInt(3)),
        entry("acceptedCount", JsonValue::NegInt(-5)),
        entry("minimizeToTray", JsonValue::Null),
    ];
    let s = load(&entries);
    assert!(s.auto_accept_enabled);
    assert!(s.always_on_top);
    assert!(s.minimize_to_tray);
    assert_eq!(s.language, "auto");
    assert_eq!(s.accepted_count, 0);
}

#[test]
fn accepted_count_entry() {
    let (k, v) = update_accepted_count(17);
    assert_eq!(k, "acceptedCount");
    assert_eq!(v, JsonValue::PosInt(17));
    assert_eq!(load(&[(k, v)]).accepted_count, 17);
}

#[test]
fn load_reads_saved_values_in_any_order_among_other_keys() {
    let s = Settings {
        auto_accept_enabled: false,
        start_with_windows: true,
        minimize_to_tray: false,
        show_notifications: true,
        always_on_top: true,
        language: "en".to_string(),
        accepted_count: 9,
    };
    let mut entries = save(&s);
    entries.reverse();
    entries.insert(3, entry("windowState", JsonValue::Str("max".to_string())));
    entries.push(entry("language", JsonValue::Str("pl".to_string())));
    assert_eq!(load(&entries), s);
    let mut updated = vec![update_accepted_count(10)];
    updated.extend(entries);
    assert_eq!(load(&updated), Settings { accepted_count: 10, ..s });
}
