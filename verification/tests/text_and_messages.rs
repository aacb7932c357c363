use glorp::json::{Json, JsonNumber};
use glorp::text::{chars_of, decimal_exec, parse_bool, parse_i64, parse_u64, split_exec, string_of, trim_exec};
use glorp::web_message::{documents_subpath, parse_web_message, parse_web_message_value, WebCommand};

fn s(v: &[char]) -> String {
    v.iter().collect()
}

#[test]
fn split_matches_str_split() {
    let text = chars_of("a, b,, c, ");
    let sep = chars_of(", ");
    let parts = split_exec(&text, &sep);
    let got: Vec<String> = parts.iter().map(|p| s(p)).collect();
    let expected: Vec<String> = "a, b,, c, ".split(", ").map(|p| p.to_string()).collect();
    assert_eq!(got, expected);
}

#[test]
fn trim_matches_str_trim() {
    for t in ["  x y \t", "\u{3000}z\u{85}", "", "   ", "no"] {
        assert_eq!(s(&trim_exec(&chars_of(t))), t.trim());
    }
}

#[test]
fn number_parsing_matches_std() {
    for t in ["0", "+7", "-7", "18446744073709551615", "18446744073709551616", "", "+", "-", "1a", "007", "-9223372036854775808", "9223372036854775807", "9223372036854775808"] {
        let c = chars_of(t);
        assert_eq!(parse_u64(&c), t.parse::<u64>().ok(), "u64 {t}");
        assert_eq!(parse_i64(&c), t.parse::<i64>().ok(), "i64 {t}");
    }
    assert_eq!(parse_bool(&chars_of("true")), Some(true));
    assert_eq!(parse_bool(&chars_of("false")), Some(false));
    assert_eq!(parse_bool(&chars_of("True")), None);
}

#[test]
fn decimal_forms() {
    assert_eq!(s(&decimal_exec(0)), "0");
    assert_eq!(s(&decimal_exec(1234567890)), "1234567890");
    assert_eq!(s(&decimal_exec(u64::MAX)), u64::MAX.to_string());
    assert_eq!(string_of(&['a', 'b']), "ab");
}

#[test]
fn set_config_message() {
    match parse_web_message("set-config, renderFpsLimit, 144") {
        WebCommand::SetConfig { setting, value, fps_limit } => {
            assert_eq!(setting, "renderFpsLimit");
            assert_eq!(value, "144");
            assert_eq!(fps_limit, Some(144));
        }
        _ => panic!("expected set-config"),
    }
    match parse_web_message(" set-config ,  fov,  90  ") {
        WebCommand::SetConfig { setting, value, fps_limit } => {
            assert_eq!(setting, "fov");
            assert_eq!(value, "90");
            assert_eq!(fps_limit, None);
        }
        _ => panic!("expected set-config"),
    }
}

#[test]
fn other_messages() {
    assert!(matches!(parse_web_message("get-info"), WebCommand::GetInfo));
    assert!(matches!(parse_web_message("close"), WebCommand::Close));
    assert!(matches!(parse_web_message("clear-cache"), WebCommand::ClearCache));
    assert!(matches!(parse_web_message("ping"), WebCommand::Ping));
    assert!(matches!(parse_web_message("drag, true"), WebCommand::Drag { wparam: 0 }));
    assert!(matches!(parse_web_message("drag, nope"), WebCommand::Drag { wparam: 2 }));
    assert!(matches!(parse_web_message("toggle-rboost, true"), WebCommand::ToggleRampBoost { wparam: 1 }));
    assert!(matches!(parse_web_message("toggle-rboost, false"), WebCommand::ToggleRampBoost { wparam: 3 }));
    assert!(matches!(parse_web_message("obs-plugin, true"), WebCommand::ObsPlugin { install: true }));
    assert!(matches!(parse_web_message("obs-plugin, x"), WebCommand::ObsPlugin { install: false }));
    match parse_web_message("throttle, game") {
        WebCommand::Throttle { setting } => assert_eq!(setting, "throttle"),
        _ => panic!(),
    }
    match parse_web_message("throttle, menu") {
        WebCommand::Throttle { setting } => assert_eq!(setting, "inMenuThrottle"),
        _ => panic!(),
    }
    match parse_web_message("rpc-update, Hardpoint, Sandstorm") {
        WebCommand::RpcUpdate { state } => assert_eq!(state, "Hardpoint on Sandstorm"),
        _ => panic!(),
    }
    match parse_web_message("open, swapper") {
        WebCommand::Open { target } => assert_eq!(target, "swapper"),
        _ => panic!(),
    }
    assert!(matches!(parse_web_message("get-info, extra"), WebCommand::Ignore));
    assert!(matches!(parse_web_message("unknown"), WebCommand::Ignore));
    assert!(matches!(parse_web_message("close,now"), WebCommand::Ignore));
}

#[test]
fn web_message_values() {
    assert!(matches!(parse_web_message_value("true", None), Json::Bool(true)));
    assert!(matches!(parse_web_message_value("-12", None), Json::Number(JsonNumber::NegInt(-12))));
    assert!(matches!(parse_web_message_value("12", None), Json::Number(JsonNumber::PosInt(12))));
    match parse_web_message_value("1.256", Some("1.26".to_string())) {
        Json::Number(JsonNumber::Float(t)) => assert_eq!(t, "1.26"),
        _ => panic!(),
    }
    match parse_web_message_value("Remember Previous", None) {
        Json::Str(t) => assert_eq!(t, "Remember Previous"),
        _ => panic!(),
    }
}

#[test]
fn documents_entries() {
    assert_eq!(documents_subpath("blocklist").as_deref(), Some("user_blocklist.json"));
    assert_eq!(documents_subpath("swapper").as_deref(), Some("swapper"));
    assert_eq!(documents_subpath("userscripts").as_deref(), Some("scripts"));
    assert_eq!(documents_subpath("other"), None);
}
