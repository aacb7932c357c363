use glorp::client::{
    extension_is, injection_gives_up, installed_message, is_webview_browser, launch_args_info, lobby_host,
    main_window_args_script, module_is, obs_cli_request, ping_message, plugin_report, priority_class,
    relaunch_after_crash, subwindow_args_script, lobby_host_from_event, DllInjector, LobbyEvent, PluginOutcome,
};
use glorp::json::Json;
use glorp::resources::{decide_resource, is_social_page, normalize_relative_path, swap_filters, ResourceDecision};
use glorp::update::{check_bundle_update, plan_release_update, plan_release_update_from_text, BundleUpdate, ReleaseUpdate};
use glorp::wide::{create_utf_string, is_webview_process, name_matches, wide_name_contains};

fn strings(v: &[&str]) -> Vec<String> {
    v.iter().map(|s| s.to_string()).collect()
}

fn obj(fields: Vec<(&str, Json)>) -> Json {
    Json::Object(fields.into_iter().map(|(k, v)| (k.to_string(), v)).collect())
}

fn release(tag: Option<&str>, url: Option<&str>) -> Json {
    let mut fields = vec![];
    if let Some(t) = tag {
        fields.push(("tag_name", Json::Str(t.to_string())));
    }
    let assets = match url {
        Some(u) => Json::Array(vec![obj(vec![("browser_download_url", Json::Str(u.to_string()))])]),
        None => Json::Array(vec![]),
    };
    fields.push(("assets", assets));
    obj(fields)
}

#[test]
fn release_plans() {
    match plan_release_update(&release(Some("2.0.0"), Some("https://x/y.msi")), "1.4.2", ".msi") {
        ReleaseUpdate::Download { version, url, file_name } => {
            assert_eq!(version, "2.0.0");
            assert_eq!(url, "https://x/y.msi");
            assert_eq!(file_name, "version.2.0.0.msi");
        }
        _ => panic!("expected a download"),
    }
    assert!(matches!(plan_release_update(&release(None, None), "1.0.0", ".msi"), ReleaseUpdate::NoTag));
    assert!(matches!(plan_release_update(&release(Some("v2"), None), "1.0.0", ".msi"), ReleaseUpdate::TagUnreadable));
    assert!(matches!(plan_release_update(&release(Some("2.0.0"), None), "bad", ".msi"), ReleaseUpdate::CurrentUnreadable));
    assert!(matches!(plan_release_update(&release(Some("1.0.0"), Some("u")), "1.0.0", ".exe"), ReleaseUpdate::UpToDate));
    assert!(matches!(plan_release_update(&release(Some("0.9.0"), Some("u")), "1.0.0", ".exe"), ReleaseUpdate::UpToDate));
    assert!(matches!(plan_release_update(&release(Some("1.0.1"), None), "1.0.0", ".exe"), ReleaseUpdate::NoAsset));
    assert!(matches!(plan_release_update(&Json::Null, "1.0.0", ".exe"), ReleaseUpdate::NoTag));
}

#[test]
fn bundle_checks() {
    assert_eq!(check_bundle_update("1.2.0", " 1.1.9\n"), BundleUpdate::Download);
    assert_eq!(check_bundle_update("1.1.9", "1.1.9"), BundleUpdate::Keep);
    assert_eq!(check_bundle_update("1.0.0-rc.1", "1.0.0"), BundleUpdate::Keep);
    assert_eq!(check_bundle_update("1.2.0", "garbage"), BundleUpdate::CurrentUnreadable);
    assert_eq!(check_bundle_update("1.2.0\n", "1.0.0"), BundleUpdate::PublishedUnreadable);
    assert_eq!(check_bundle_update("1.10.0", "1.9.0"), BundleUpdate::Download);
    assert_eq!(check_bundle_update("1.9.0", "1.10.0"), BundleUpdate::Keep);
    assert_eq!(check_bundle_update("1.0", "1.0.0"), BundleUpdate::PublishedUnreadable);
}

#[test]
fn resource_requests() {
    let swaps = strings(&["textures/a.png", "sound/b.mp3"]);
    assert_eq!(decide_resource("https://example.com/x", &swaps), ResourceDecision::Block);
    assert_eq!(decide_resource("https://matchmaker.krunker.io/game-info?x", &swaps), ResourceDecision::NotifyGameUpdated);
    assert_eq!(decide_resource("https://krunker.io/lobby-ranked", &swaps), ResourceDecision::NotifyGameUpdated);
    assert_eq!(decide_resource("https://krunker.io/sound/b.mp3?v=2", &swaps), ResourceDecision::Swap { index: 1 });
    assert_eq!(decide_resource("https://assets.krunker.io/textures/a.png", &swaps), ResourceDecision::Swap { index: 0 });
    assert_eq!(decide_resource("https://krunker.io/other.js", &swaps), ResourceDecision::Block);
    assert_eq!(decide_resource("https://krunker.io", &swaps), ResourceDecision::Block);
    assert!(is_social_page("https://krunker.io/social.html?p=profile"));
    assert!(!is_social_page("https://krunker.io/"));
}

#[test]
fn swapped_file_served_at_its_path() {
    let swaps = strings(&["a.png", "sub/a.png", "sub/a.png"]);
    let relative = normalize_relative_path("sub\\a.png");
    let uri = format!("https://krunker.io/{}", relative);
    assert_eq!(decide_resource(&uri, &swaps), ResourceDecision::Swap { index: 1 });
    assert_eq!(decide_resource("https://krunker.io/a.png", &swaps), ResourceDecision::Swap { index: 0 });
}

#[test]
fn swapper_paths() {
    assert_eq!(normalize_relative_path("textures\\weapons\\a.png"), "textures/weapons/a.png");
    let (a, b) = swap_filters("textures/a.png");
    assert_eq!(a, "*://krunker.io/textures/a.png*");
    assert_eq!(b, "*://*.krunker.io/textures/a.png*");
}

#[test]
fn lobby_and_ping() {
    assert_eq!(lobby_host("\"wss://lobby-eu.krunker.io/ws?x=1\"").as_deref(), Some("lobby-eu.krunker.io"));
    assert_eq!(lobby_host("\"wss://social.krunker.io/ws\""), None);
    assert_eq!(lobby_host("\"lobby-x\"").as_deref(), Some("\"lobby-x\""));
    assert_eq!(ping_message(42), "{\"pingInfo\":42}");
}

#[test]
fn plugin_reports() {
    let r = plugin_report(PluginOutcome::Done { message: installed_message("C:\\obs\\p.dll") }, false);
    assert!(r.ok);
    assert_eq!(r.message, "OBS plugin installed to C:\\obs\\p.dll");
    assert!(!r.disable_setting);
    let r = plugin_report(PluginOutcome::PermissionDenied { error: "denied".to_string() }, true);
    assert!(r.ok);
    assert!(r.disable_setting);
    assert_eq!(r.message, "Windows administrator permission requested for the OBS plugin operation");
    let r = plugin_report(PluginOutcome::PermissionDenied { error: "denied".to_string() }, false);
    assert!(!r.ok);
    assert_eq!(r.message, "OBS plugin operation failed: denied");
    assert!(r.disable_setting);
    let r = plugin_report(PluginOutcome::Failed { error: "OBS was not found in Program Files".to_string() }, false);
    assert!(!r.ok);
    assert_eq!(r.message, "OBS plugin operation failed: OBS was not found in Program Files");
}

#[test]
fn command_line() {
    assert_eq!(obs_cli_request(&strings(&["glorp.exe", "--install-obs-plugin"])), Some(true));
    assert_eq!(obs_cli_request(&strings(&["glorp.exe", "--uninstall-obs-plugin"])), Some(false));
    assert_eq!(obs_cli_request(&strings(&["--uninstall-obs-plugin", "--install-obs-plugin"])), Some(true));
    assert_eq!(obs_cli_request(&strings(&["glorp.exe"])), None);
    assert!(relaunch_after_crash(&strings(&["glorp.exe"])));
    assert!(!relaunch_after_crash(&strings(&["glorp.exe", "crash"])));
    assert_eq!(launch_args_info(&strings(&[])), None);
    assert_eq!(launch_args_info(&strings(&["a", "b"])).as_deref(), Some("a b"));
    assert!(extension_is("JS", "js"));
    assert!(extension_is("msi", "msi"));
    assert!(!extension_is("jsx", "js"));
}

#[test]
fn priorities() {
    assert_eq!(priority_class("High"), 0x80);
    assert_eq!(priority_class("Above Normal"), 0x8000);
    assert_eq!(priority_class("Below Normal"), 0x4000);
    assert_eq!(priority_class("Idle"), 0x40);
    assert_eq!(priority_class("Normal"), 0x20);
    assert_eq!(priority_class("whatever"), 0x20);
}

fn buffer(name: &str) -> Vec<u16> {
    let mut v: Vec<u16> = name.encode_utf16().collect();
    v.resize(260, 0);
    v
}

#[test]
fn wide_names() {
    let expected: Vec<u16> = "héllo 😀".encode_utf16().chain(Some(0)).collect();
    assert_eq!(create_utf_string("héllo 😀"), expected);
    assert!(name_matches(&buffer("msedgewebview2.exe"), "msedgewebview2.exe"));
    assert!(!name_matches(&buffer("msedgewebview2.exe2"), "msedgewebview2.exe"));
    assert!(!name_matches(&buffer("msedge"), "msedgewebview2.exe"));
    assert!(wide_name_contains(&buffer("Chrome_RenderWidgetHostHWND"), "RenderWidget"));
    assert!(!wide_name_contains(&buffer("Chrome_WidgetWin_1"), "RenderWidget"));
    let mut tail_after_nul = buffer("abc");
    tail_after_nul[10] = 'R' as u16;
    assert!(!wide_name_contains(&tail_after_nul, "R"));
    assert!(is_webview_process(&buffer("MSEdgeWebView2.exe")));
    assert!(!is_webview_process(&buffer("chrome.exe")));
    assert!(module_is(&buffer("webview.dll"), "webview.dll"));
    assert!(!module_is(&buffer("d3d11.dll"), "webview.dll"));
    assert!(is_webview_browser(&buffer("MSEDGEWEBVIEW2.EXE")));
    assert!(!is_webview_browser(&buffer("msedge.exe")));
}

#[test]
fn injector() {
    let inj = DllInjector::new("C:\\glorp\\webview.dll", 42);
    assert_eq!(inj.pid(), 42);
    let w = inj.wide_path();
    assert_eq!(w.len(), "C:\\glorp\\webview.dll".len() + 1);
    assert_eq!(*w.last().unwrap(), 0);
    assert_eq!(inj.wide_path_bytes(), 2 * w.len());
    assert!(!injection_gives_up(0));
    assert!(injection_gives_up(1));
}

#[test]
fn second_launch_scripts() {
    let data = "--flag \"x\"\n".as_bytes();
    assert_eq!(
        main_window_args_script(data).unwrap(),
        format!("window.glorpClient.parseArgs({})", serde_json::to_string("--flag \"x\"\n").unwrap())
    );
    assert_eq!(main_window_args_script(&[0x01, 0x1f]).unwrap(), "window.glorpClient.parseArgs(\"\\u0001\\u001f\")");
    assert_eq!(subwindow_args_script(b"abc").unwrap(), "window.glorpClient.parseArgs('abc')");
    assert!(main_window_args_script(&[0xff]).is_none());
    assert!(subwindow_args_script(&[0xc0, 0x80]).is_none());
}

#[test]
fn release_plan_from_response_text() {
    let text = r#"{"tag_name":"2.1.0","assets":[{"browser_download_url":"https://x/setup.msi"}]}"#;
    match plan_release_update_from_text(text, "2.0.0", ".msi") {
        Some(ReleaseUpdate::Download { version, url, file_name }) => {
            assert_eq!(version, "2.1.0");
            assert_eq!(url, "https://x/setup.msi");
            assert_eq!(file_name, "version.2.1.0.msi");
        }
        _ => panic!("expected a download"),
    }
    assert!(plan_release_update_from_text("not json", "2.0.0", ".msi").is_none());
    assert!(matches!(plan_release_update_from_text("[1, 2]", "2.0.0", ".msi"), Some(ReleaseUpdate::NoTag)));
    assert!(matches!(plan_release_update_from_text(r#"{"tag_name":"2.0.0"}"#, "2.0.0", ".msi"), Some(ReleaseUpdate::UpToDate)));
}

#[test]
fn lobby_from_socket_event() {
    match lobby_host_from_event(r#"{"requestId":"1","url":"wss://lobby-eu.krunker.io/ws?x=1"}"#) {
        LobbyEvent::Lobby { host } => assert_eq!(host, "lobby-eu.krunker.io"),
        _ => panic!("expected a lobby"),
    }
    assert!(matches!(lobby_host_from_event(r#"{"url":"wss://social.krunker.io/ws"}"#), LobbyEvent::NotLobby));
    assert!(matches!(lobby_host_from_event(r#"{"requestId":"1"}"#), LobbyEvent::Unreadable));
    assert!(matches!(lobby_host_from_event("{"), LobbyEvent::Unreadable));
    assert!(matches!(lobby_host_from_event("[1]"), LobbyEvent::Unreadable));
    assert!(matches!(lobby_host_from_event(r#"{"url":null}"#), LobbyEvent::NotLobby));
    match lobby_host_from_event(r#"{"url":["wss://lobby-x/a"]}"#) {
        LobbyEvent::Lobby { host } => assert_eq!(host, "lobby-x"),
        _ => panic!("expected a lobby"),
    }
}

#[test]
fn module_names_decode_lossily() {
    let mut units: Vec<u16> = "webview".encode_utf16().collect();
    units.push(0xd800);
    units.extend(".dll".encode_utf16());
    units.push(0);
    assert!(!module_is(&units, "webview.dll"));
    assert!(module_is(&units, "webview\u{fffd}.dll"));
    let wide = create_utf_string("a\u{e9}\u{1f600}z");
    assert_eq!(String::from_utf16_lossy(&wide[..wide.len() - 1]), "a\u{e9}\u{1f600}z");
}
