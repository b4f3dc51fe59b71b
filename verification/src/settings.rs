//! The user's settings and how they are kept in the key-value settings store.
use crate::json::{self, JsonValue};
use vstd::prelude::*;

verus! {

/// The user's settings.
#[derive(Debug, Clone, PartialEq)]
pub struct Settings {
    pub auto_accept_enabled: bool,
    pub start_with_windows: bool,
    pub minimize_to_tray: bool,
    pub show_notifications: bool,
    pub always_on_top: bool,
    /// `"auto"`, `"pl"` or `"en"`.
    pub language: String,
    pub accepted_count: u64,
}

/// The settings as plain values.
pub struct SettingsView {
    pub auto_accept_enabled: bool,
    pub start_with_windows: bool,
    pub minimize_to_tray: bool,
    pub show_notifications: bool,
    pub always_on_top: bool,
    pub language: Seq<char>,
    pub accepted_count: u64,
}

impl View for Settings {
    type V = SettingsView;

    open spec fn view(&self) -> SettingsView {
        SettingsView {
            auto_accept_enabled: self.auto_accept_enabled,
            start_with_windows: self.start_with_windows,
            minimize_to_tray: self.minimize_to_tray,
            show_notifications: self.show_notifications,
            always_on_top: self.always_on_top,
            language: self.language@,
            accepted_count: self.accepted_count,
        }
    }
}

/// The settings that hold until the user changes them: auto-accept, minimizing to the
/// tray and notifications on; start with the system and always-on-top off; the
/// language chosen automatically; nothing accepted.
pub open spec fn default_settings() -> SettingsView {
    SettingsView {
        auto_accept_enabled: true,
        start_with_windows: false,
        minimize_to_tray: true,
        show_notifications: true,
        always_on_top: false,
        language: "auto"@,
        accepted_count: 0,
    }
}

/// The default of the settings that are on unless set.
pub fn default_true() -> (r: bool)
    ensures
        r,
{
    true
}

/// The default language: chosen automatically.
pub fn default_language() -> (r: String)
    ensures
        r@ == "auto"@,
{
    "auto".to_owned()
}

impl Default for Settings {
    fn default() -> (r: Self)
        ensures
            r@ == default_settings(),
    {
        Settings {
            auto_accept_enabled: true,
            start_with_windows: false,
            minimize_to_tray: true,
            show_notifications: true,
            always_on_top: false,
            language: default_language(),
            accepted_count: 0,
        }
    }
}

/// A boolean setting: the stored value when it is a boolean, else `default`.
pub open spec fn stored_bool(entries: Seq<(String, JsonValue)>, key: Seq<char>, default: bool) -> bool {
    match json::field_of(entries, key) {
        Some(v) => match v.bool_spec() {
            Some(b) => b,
            None => default,
        },
        None => default,
    }
}

/// A text setting: the stored value when it is a string, else `default`.
pub open spec fn stored_text(
    entries: Seq<(String, JsonValue)>,
    key: Seq<char>,
    default: Seq<char>,
) -> Seq<char> {
    match json::field_of(entries, key) {
        Some(v) => match v.str_spec() {
            Some(s) => s,
            None => default,
        },
        None => default,
    }
}

/// A count setting: the stored value when it is a non-negative integer, else `default`.
pub open spec fn stored_count(entries: Seq<(String, JsonValue)>, key: Seq<char>, default: u64) -> u64 {
    match json::field_of(entries, key) {
        Some(v) => match v.u64_spec() {
            Some(n) => n,
            None => default,
        },
        None => default,
    }
}

/// The settings that a store holds: each setting from its key when the stored value has
/// the right type, else its default.
pub open spec fn loaded(entries: Seq<(String, JsonValue)>) -> SettingsView {
    let d = default_settings();
    SettingsView {
        auto_accept_enabled: stored_bool(entries, "autoAcceptEnabled"@, d.auto_accept_enabled),
        start_with_windows: stored_bool(entries, "startWithWindows"@, d.start_with_windows),
        minimize_to_tray: stored_bool(entries, "minimizeToTray"@, d.minimize_to_tray),
        show_notifications: stored_bool(entries, "showNotifications"@, d.show_notifications),
        always_on_top: stored_bool(entries, "alwaysOnTop"@, d.always_on_top),
        language: stored_text(entries, "language"@, d.language),
        accepted_count: stored_count(entries, "acceptedCount"@, d.accepted_count),
    }
}

fn stored_bool_of(entries: &[(String, JsonValue)], key: &str, default: bool) -> (r: bool)
    ensures
        r == stored_bool(entries@, key@, default),
{
    match json::field(entries, key) {
        Some(v) => match v.as_bool() {
            Some(b) => b,
            None => default,
        },
        None => default,
    }
}

/// Reads the settings from the entries of the settings store.
pub fn load(entries: &[(String, JsonValue)]) -> (r: Settings)
    ensures
        r@ == loaded(entries@),
{
    let mut settings = Settings::default();
    settings.auto_accept_enabled = stored_bool_of(entries, "autoAcceptEnabled", settings.auto_accept_enabled);
    settings.start_with_windows = stored_bool_of(entries, "startWithWindows", settings.start_with_windows);
    settings.minimize_to_tray = stored_bool_of(entries, "minimizeToTray", settings.minimize_to_tray);
    settings.show_notifications = stored_bool_of(entries, "showNotifications", settings.show_notifications);
    settings.always_on_top = stored_bool_of(entries, "alwaysOnTop", settings.always_on_top);
    if let Some(v) = json::field(entries, "language") {
        if let Some(s) = v.as_str() {
            settings.language = s.to_owned();
        }
    }
    if let Some(v) = json::field(entries, "acceptedCount") {
        if let Some(n) = v.as_u64() {
            settings.accepted_count = n;
        }
    }
    settings
}

/// The entries that keep `s` in the settings store, one per setting.
pub open spec fn stores(entries: Seq<(String, JsonValue)>, s: SettingsView) -> bool {
    &&& entries.len() == 7
    &&& entries[0].0@ == "autoAcceptEnabled"@
    &&& entries[0].1 == JsonValue::Bool(s.auto_accept_enabled)
    &&& entries[1].0@ == "startWithWindows"@
    &&& entries[1].1 == JsonValue::Bool(s.start_with_windows)
    &&& entries[2].0@ == "minimizeToTray"@
    &&& entries[2].1 == JsonValue::Bool(s.minimize_to_tray)
    &&& entries[3].0@ == "showNotifications"@
    &&& entries[3].1 == JsonValue::Bool(s.show_notifications)
    &&& entries[4].0@ == "alwaysOnTop"@
    &&& entries[4].1 == JsonValue::Bool(s.always_on_top)
    &&& entries[5].0@ == "language"@
    &&& entries[5].1.str_spec() == Some(s.language)
    &&& entries[6].0@ == "acceptedCount"@
    &&& entries[6].1 == JsonValue::PosInt(s.accepted_count)
}

/// The entries to write to the settings store to keep `s`.
pub fn save(s: &Settings) -> (entries: Vec<(String, JsonValue)>)
    ensures
        stores(entries@, s@),
{
    let mut entries: Vec<(String, JsonValue)> = Vec::new();
    entries.push(("autoAcceptEnabled".to_owned(), JsonValue::Bool(s.auto_accept_enabled)));
    entries.push(("startWithWindows".to_owned(), JsonValue::Bool(s.start_with_windows)));
    entries.push(("minimizeToTray".to_owned(), JsonValue::Bool(s.minimize_to_tray)));
    entries.push(("showNotifications".to_owned(), JsonValue::Bool(s.show_notifications)));
    entries.push(("alwaysOnTop".to_owned(), JsonValue::Bool(s.always_on_top)));
    entries.push(("language".to_owned(), JsonValue::Str(s.language.clone())));
    entries.push(("acceptedCount".to_owned(), JsonValue::PosInt(s.accepted_count)));
    entries
}

/// The entry to write to the settings store when only the count of accepted matches
/// changed.
pub fn update_accepted_count(count: u64) -> (entry: (String, JsonValue))
    ensures
        entry.0@ == "acceptedCount"@,
        entry.1 == JsonValue::PosInt(count),
{
    ("acceptedCount".to_owned(), JsonValue::PosInt(count))
}

/// The entries hold `s`: the first entry under each setting's key carries the value
/// of `s` for it, whatever order the entries come in and whatever other keys they have.
pub open spec fn holds_settings(entries: Seq<(String, JsonValue)>, s: SettingsView) -> bool {
    &&& json::field_of(entries, "autoAcceptEnabled"@) == Some(JsonValue::Bool(s.auto_accept_enabled))
    &&& json::field_of(entries, "startWithWindows"@) == Some(JsonValue::Bool(s.start_with_windows))
    &&& json::field_of(entries, "minimizeToTray"@) == Some(JsonValue::Bool(s.minimize_to_tray))
    &&& json::field_of(entries, "showNotifications"@) == Some(JsonValue::Bool(s.show_notifications))
    &&& json::field_of(entries, "alwaysOnTop"@) == Some(JsonValue::Bool(s.always_on_top))
    &&& json::field_of(entries, "language"@) matches Some(v) && v.str_spec() == Some(s.language)
    &&& json::field_of(entries, "acceptedCount"@) == Some(JsonValue::PosInt(s.accepted_count))
}

/// Loading a store that holds `s` gives `s`.
pub proof fn lemma_load_of_held_settings(entries: Seq<(String, JsonValue)>, s: SettingsView)
    requires
        holds_settings(entries, s),
    ensures
        loaded(entries) == s,
{
}

/// The lengths of the store's keys, which tell them apart (the two keys of equal length
/// differ in their first character).
proof fn lemma_store_keys()
    ensures
        "autoAcceptEnabled"@.len() == 17,
        "startWithWindows"@.len() == 16,
        "minimizeToTray"@.len() == 14,
        "showNotifications"@.len() == 17,
        "alwaysOnTop"@.len() == 11,
        "language"@.len() == 8,
        "acceptedCount"@.len() == 13,
        "autoAcceptEnabled"@[0] != "showNotifications"@[0],
{
    reveal_strlit("autoAcceptEnabled");
    reveal_strlit("startWithWindows");
    reveal_strlit("minimizeToTray");
    reveal_strlit("showNotifications");
    reveal_strlit("alwaysOnTop");
    reveal_strlit("language");
    reveal_strlit("acceptedCount");
}

/// The entries that `save` writes hold the saved settings.
pub proof fn lemma_saved_entries_hold(entries: Seq<(String, JsonValue)>, s: SettingsView)
    requires
        stores(entries, s),
    ensures
        holds_settings(entries, s),
{
    reveal_with_fuel(json::field_of, 8);
    lemma_store_keys();
    let e1 = entries.drop_first();
    let e2 = e1.drop_first();
    let e3 = e2.drop_first();
    let e4 = e3.drop_first();
    let e5 = e4.drop_first();
    let e6 = e5.drop_first();
    assert(e1[0] == entries[1]);
    assert(e2[0] == entries[2]);
    assert(e3[0] == entries[3]);
    assert(e4[0] == entries[4]);
    assert(e5[0] == entries[5]);
    assert(e6[0] == entries[6]);
}

/// Loading what was saved gives back the settings that were saved.
pub proof fn lemma_load_after_save(entries: Seq<(String, JsonValue)>, s: SettingsView)
    requires
        stores(entries, s),
    ensures
        loaded(entries) == s,
{
    lemma_saved_entries_hold(entries, s);
}

/// After the entry of `update_accepted_count(n)` is put in front of a store that holds
/// `s`, the store holds `s` with `n` accepted matches.
pub proof fn lemma_load_after_count_update(
    entries: Seq<(String, JsonValue)>,
    s: SettingsView,
    entry: (String, JsonValue),
    n: u64,
)
    requires
        holds_settings(entries, s),
        entry.0@ == "acceptedCount"@,
        entry.1 == JsonValue::PosInt(n),
    ensures
        holds_settings(seq![entry] + entries, SettingsView { accepted_count: n, ..s }),
        loaded(seq![entry] + entries) == (SettingsView { accepted_count: n, ..s }),
{
    lemma_store_keys();
    let all = seq![entry] + entries;
    assert(all[0] == entry);
    assert(all.drop_first() =~= entries);
}

/// With nothing stored, the settings are the defaults.
pub proof fn lemma_load_empty_is_default()
    ensures
        loaded(Seq::<(String, JsonValue)>::empty()) == default_settings(),
        default_settings() == (SettingsView {
            auto_accept_enabled: true,
            start_with_windows: false,
            minimize_to_tray: true,
            show_notifications: true,
            always_on_top: false,
            language: "auto"@,
            accepted_count: 0,
        }),
{
}

} // verus!
