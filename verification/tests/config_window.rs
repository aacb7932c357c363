use glorp::config::{config_from_entries, load_config, load_settings, Config};
use glorp::json::{Json, JsonNumber};
use glorp::window::{
    accelerator_action, client_bounds, start_state, fullscreen_from_style, requested_window_state, toggle_fullscreen,
    window_creation_state, window_state_from_json_exec, window_state_to_json, KeyAction, Placement, Position,
    Rect, WindowState, FULLSCREEN_STYLE, WINDOWED_STYLE,
};

fn entry(k: &str, v: Json) -> (String, Json) {
    (k.to_string(), v)
}

#[test]
fn setting_reads_back_after_write() {
    let mut c = Config::new();
    assert!(c.get("fpsLimit").is_none());
    c.set("fpsLimit", Json::Number(JsonNumber::PosInt(240)));
    assert_eq!(c.get_u64("fpsLimit"), Some(240));
    c.set("fpsLimit", Json::Number(JsonNumber::PosInt(60)));
    assert_eq!(c.get_u64("fpsLimit"), Some(60));
    c.set("discordRPC", Json::Bool(false));
    assert_eq!(c.get_bool("discordRPC"), Some(false));
    assert_eq!(c.get_u64("fpsLimit"), Some(60));
    assert!(!c.config_bool("discordRPC", true));
    assert!(c.config_bool("missing", true));
    c.set("startMode", Json::Str("Maximized".to_string()));
    assert_eq!(c.config_string("startMode", "Remember Previous".to_string()), "Maximized");
    assert_eq!(c.config_string("fpsLimit", "x".to_string()), "x");
    assert_eq!(c.get_bool("startMode"), None);
}

#[test]
fn defaults_fill_gaps_without_overwriting() {
    let user = vec![entry("uncapFps", Json::Bool(false))];
    let defaults = vec![entry("uncapFps", Json::Bool(true)), entry("hardFlip", Json::Bool(true))];
    let fallback = vec![entry("uncapFps", Json::Bool(true)), entry("hardFlip", Json::Bool(true))];
    let c = load_config(Some(user), fallback, defaults);
    assert_eq!(c.get_bool("uncapFps"), Some(false));
    assert_eq!(c.get_bool("hardFlip"), Some(true));
    let mut again = config_from_entries(vec![entry("a", Json::Null)]);
    again.merge_defaults(vec![entry("a", Json::Bool(true)), entry("b", Json::Bool(true)), entry("b", Json::Bool(false))]);
    assert!(matches!(again.get("a"), Some(Json::Null)));
    assert_eq!(again.get_bool("b"), Some(true));
}

#[test]
fn saved_settings_reload_unchanged() {
    let defaults = || vec![entry("uncapFps", Json::Bool(true)), entry("fpsLimit", Json::Number(JsonNumber::PosInt(0)))];
    let mut c = load_config(Some(vec![entry("startMode", Json::Str("Fullscreen".to_string()))]), defaults(), defaults());
    c.set("fpsLimit", Json::Number(JsonNumber::PosInt(144)));
    c.set("uncapFps", Json::Bool(false));
    let saved: Vec<(String, Json)> = c.entries().iter().map(|(k, v)| (k.clone(), copy_json(v))).collect();
    let reloaded = load_config(Some(saved), defaults(), defaults());
    assert_eq!(reloaded.get_u64("fpsLimit"), Some(144));
    assert_eq!(reloaded.get_bool("uncapFps"), Some(false));
    assert_eq!(reloaded.get_string("startMode").as_deref(), Some("Fullscreen"));
    assert_eq!(reloaded.entries().len(), 3);
}

fn copy_json(v: &Json) -> Json {
    match v {
        Json::Null => Json::Null,
        Json::Bool(b) => Json::Bool(*b),
        Json::Number(JsonNumber::PosInt(n)) => Json::Number(JsonNumber::PosInt(*n)),
        Json::Number(JsonNumber::NegInt(n)) => Json::Number(JsonNumber::NegInt(*n)),
        Json::Number(JsonNumber::Float(t)) => Json::Number(JsonNumber::Float(t.clone())),
        Json::Str(s) => Json::Str(s.clone()),
        Json::Array(items) => Json::Array(items.iter().map(copy_json).collect()),
        Json::Object(fields) => Json::Object(fields.iter().map(|(k, v)| (k.clone(), copy_json(v))).collect()),
    }
}

#[test]
fn unreadable_settings_fall_back_to_defaults() {
    let defaults = vec![entry("swapper", Json::Bool(true))];
    let fallback = vec![entry("swapper", Json::Bool(true))];
    let c = load_config(None, fallback, defaults);
    assert_eq!(c.get_bool("swapper"), Some(true));
}

#[test]
fn later_entry_wins_when_reading_entries() {
    let c = config_from_entries(vec![entry("k", Json::Bool(true)), entry("k", Json::Bool(false))]);
    assert_eq!(c.get_bool("k"), Some(false));
}

#[test]
fn creation_state_by_start_mode() {
    let saved = WindowState { fullscreen: false, position: Position { left: 5, top: 6, right: 105, bottom: 206 } };
    let full = WindowState { fullscreen: true, position: Position { left: 0, top: 0, right: 1920, bottom: 1080 } };
    assert_eq!(window_creation_state("Borderless Fullscreen", Some(saved), 1920, 1080, 1536, 864), full);
    assert_eq!(
        window_creation_state("Maximized", None, 1920, 1080, 1536, 864),
        WindowState { fullscreen: false, position: full.position }
    );
    assert_eq!(window_creation_state("Remember Previous", Some(saved), 1920, 1080, 1536, 864), saved);
    assert_eq!(window_creation_state("Remember Previous", None, 1920, 1080, 1536, 864), full);
    assert_eq!(window_creation_state("Custom", Some(saved), 1920, 1080, 1536, 864), saved);
    let centred = WindowState { fullscreen: false, position: Position { left: 192, top: 108, right: 1728, bottom: 972 } };
    assert_eq!(window_creation_state("Custom", None, 1920, 1080, 1536, 864), centred);
    assert_eq!(window_creation_state("Windowed", Some(saved), 1920, 1080, 1536, 864), centred);
}

#[test]
fn fullscreen_toggle_round_trip() {
    let state = WindowState { fullscreen: false, position: Position { left: 1, top: 2, right: 3, bottom: 4 } };
    let current = Rect { left: 10, top: 20, right: 810, bottom: 620 };
    let (s1, p1) = toggle_fullscreen(state, current, 1920, 1080);
    assert!(s1.fullscreen);
    assert_eq!(p1, Placement { style: FULLSCREEN_STYLE, x: 0, y: 0, width: 1920, height: 1080 });
    let (s2, p2) = toggle_fullscreen(s1, Rect { left: 0, top: 0, right: 1920, bottom: 1080 }, 1920, 1080);
    assert_eq!(s2, WindowState { fullscreen: false, position: Position { left: 10, top: 20, right: 810, bottom: 620 } });
    assert_eq!(p2, Placement { style: WINDOWED_STYLE, x: 10, y: 20, width: 800, height: 600 });
}

#[test]
fn keys_and_styles() {
    assert_eq!(accelerator_action(0x73), KeyAction::Home);
    assert_eq!(accelerator_action(0x75), KeyAction::Home);
    assert_eq!(accelerator_action(0x74), KeyAction::Reload);
    assert_eq!(accelerator_action(0x7a), KeyAction::ToggleFullscreen);
    assert_eq!(accelerator_action(0x7b), KeyAction::DevTools);
    assert_eq!(accelerator_action(0x41), KeyAction::Nothing);
    assert!(fullscreen_from_style(FULLSCREEN_STYLE));
    assert!(!fullscreen_from_style(WINDOWED_STYLE));
    assert_eq!(client_bounds(0x0438_0780), Rect { left: 0, top: 0, right: 1920, bottom: 1080 });
    assert_eq!(glorp::wide::LOWORD(0x1234_5678), 0x5678);
    assert_eq!(glorp::wide::HIWORD(0x1234_5678), 0x1234);
}

#[test]
fn page_opened_window_state() {
    assert_eq!(
        requested_window_state(100, 50, 640, 480),
        WindowState { fullscreen: false, position: Position { left: 100, top: 50, right: 740, bottom: 530 } }
    );
    let s = requested_window_state(u32::MAX, 0, 2, 0);
    assert_eq!(s.position.left, -1);
    assert_eq!(s.position.right, 1);
}

#[test]
fn window_state_json_round_trip() {
    let s = WindowState { fullscreen: true, position: Position { left: -8, top: 0, right: 2560, bottom: 1400 } };
    let j = window_state_to_json(s);
    assert_eq!(window_state_from_json_exec(&j), Some(s));
    // the array form that the derived deserialisation also accepts
    let arr = Json::Array(vec![
        Json::Bool(false),
        Json::Array(vec![
            Json::Number(JsonNumber::PosInt(1)),
            Json::Number(JsonNumber::PosInt(2)),
            Json::Number(JsonNumber::PosInt(3)),
            Json::Number(JsonNumber::NegInt(-4)),
        ]),
    ]);
    assert_eq!(
        window_state_from_json_exec(&arr),
        Some(WindowState { fullscreen: false, position: Position { left: 1, top: 2, right: 3, bottom: -4 } })
    );
    let bad = Json::Object(vec![("fullscreen".to_string(), Json::Bool(true))]);
    assert_eq!(window_state_from_json_exec(&bad), None);
    let too_big = Json::Object(vec![
        ("fullscreen".to_string(), Json::Bool(true)),
        (
            "position".to_string(),
            Json::Object(vec![
                ("left".to_string(), Json::Number(JsonNumber::PosInt(1 << 40))),
                ("top".to_string(), Json::Number(JsonNumber::PosInt(0))),
                ("right".to_string(), Json::Number(JsonNumber::PosInt(0))),
                ("bottom".to_string(), Json::Number(JsonNumber::PosInt(0))),
            ]),
        ),
    ]);
    assert_eq!(window_state_from_json_exec(&too_big), None);
}

#[test]
fn settings_file_text_loads_with_defaults() {
    let defaults = || vec![entry("uncapFps", Json::Bool(true)), entry("fpsLimit", Json::Number(JsonNumber::PosInt(0)))];
    let c = load_settings(r#"{"fpsLimit": 144, "scale": 1.5, "lastPosition": {"fullscreen": false}}"#, defaults());
    assert_eq!(c.get_u64("fpsLimit"), Some(144));
    assert_eq!(c.get_bool("uncapFps"), Some(true));
    assert!(matches!(c.get("scale"), Some(Json::Number(JsonNumber::Float(t))) if t == "1.5"));
    assert!(matches!(c.get("lastPosition"), Some(Json::Object(fields)) if fields.len() == 1));
    let broken = load_settings("{ not json", defaults());
    assert_eq!(broken.get_u64("fpsLimit"), Some(0));
    assert_eq!(broken.entries().len(), 2);
    let not_object = load_settings("[1]", defaults());
    assert_eq!(not_object.get_bool("uncapFps"), Some(true));
}

#[test]
fn start_state_by_mode() {
    let saved = window_state_to_json(WindowState {
        fullscreen: false,
        position: Position { left: 1, top: 2, right: 3, bottom: 4 },
    });
    let restored = start_state("Remember Previous", Some(&saved)).unwrap();
    assert!(!restored.fullscreen);
    assert_eq!((restored.position.left, restored.position.bottom), (1, 4));
    assert!(start_state("Custom", Some(&saved)).is_none());
    assert!(start_state("Remember Previous", None).is_none());
    assert!(start_state("Remember Previous", Some(&Json::Null)).is_none());
}

#[test]
fn plugin_removal_switches_setting_off() {
    let mut c = Config::new();
    c.set("obsCapturePlugin", Json::Bool(true));
    c.note_plugin_request(true);
    assert_eq!(c.get_bool("obsCapturePlugin"), Some(true));
    c.note_plugin_request(false);
    assert_eq!(c.get_bool("obsCapturePlugin"), Some(false));
}
