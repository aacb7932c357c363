use glorp::capture::{
    backend_check, capture_object_name, fresh_capture_info, info_is_valid, needs_texture, next_frame_counter,
    obs_module_ver, reader_active, set_reader_active, texture_current, texture_outdated, tick_action, CaptureObject,
    TickAction, GLORP_CAPTURE_MAGIC,
};
use glorp::render::{
    adjust_swapchain_desc, fps_report, frame_budget_ns, frame_stats, limiter_step, limiter_wait, present_flags, retry_flags,
    takes_over_swapchain, LimiterWait, SwapChainDesc,
};
use glorp::webview_proc::{
    chrome_window_action, swallow_raw_input, widget_message, ChromeAction, WidgetAction, WidgetMode, WM_CHAR,
    WM_INPUT, WM_KEYDOWN, WM_LBUTTONDOWN, WM_MOUSEMOVE, WM_MOUSEWHEEL, WM_QUIT, WM_USER,
};

#[test]
fn swap_chain_takeover() {
    assert!(takes_over_swapchain(1920, 1080, false));
    assert!(!takes_over_swapchain(599, 1080, false));
    assert!(!takes_over_swapchain(1920, 1080, true));
    let d = SwapChainDesc {
        width: 1920,
        height: 1080,
        format: 87,
        stereo: false,
        sample_count: 1,
        sample_quality: 0,
        buffer_usage: 0,
        buffer_count: 3,
        scaling: 0,
        swap_effect: 4,
        alpha_mode: 1,
        flags: 0,
    };
    let a = adjust_swapchain_desc(d);
    assert_eq!(a.buffer_usage, 0x20);
    assert_eq!(a.buffer_count, 2);
    assert_eq!(a.swap_effect, 3);
    assert_eq!(a.alpha_mode, 3);
    assert_eq!(a.flags, 2048 | 64);
    assert_eq!((a.width, a.height, a.format), (1920, 1080, 87));
}

#[test]
fn frame_timing() {
    assert_eq!(frame_stats(0, 4_000_000), (4_000_000, 250));
    assert_eq!(frame_stats(4_000_000, 8_000_000), ((4_000_000 * 31 + 8_000_000) / 32, 1_000_000_000 / 4_125_000));
    assert_eq!(frame_budget_ns(0), None);
    assert_eq!(frame_budget_ns(144), Some(6_944_444));
    assert_eq!(limiter_wait(6_944_444, 7_000_000), LimiterWait::Go);
    assert_eq!(limiter_wait(6_944_444, 1_000_000), LimiterWait::Wait { sleep_ns: 4_944_444 });
    assert_eq!(limiter_wait(6_944_444, 5_000_000), LimiterWait::Wait { sleep_ns: 0 });
    assert_eq!(present_flags(0, 0), 0x200);
    assert_eq!(present_flags(1, 0x4), 0x4);
    assert_eq!(retry_flags(0x204), Some(0x4));
    assert_eq!(retry_flags(0x4), None);
}

#[test]
fn fps_reports() {
    let (last, msg) = fps_report(None, 144, 6_900_000);
    assert_eq!(last, Some((144, 6_900_000)));
    assert_eq!(msg.as_deref(), Some("{\"fpsInfo\":144}"));
    let (last2, msg2) = fps_report(last, 144, 6_900_000);
    assert_eq!(last2, last);
    assert!(msg2.is_none());
    let (last3, msg3) = fps_report(last, 0, 1);
    assert_eq!(last3, last);
    assert!(msg3.is_none());
}

#[test]
fn control_block() {
    let info = fresh_capture_info();
    assert_eq!(info.magic, GLORP_CAPTURE_MAGIC);
    assert!(info_is_valid(info.magic, info.version));
    assert!(!info_is_valid(info.magic, 2));
    let on = set_reader_active(0xf0, true);
    assert_eq!(on, 0xf1);
    assert!(reader_active(on));
    let off = set_reader_active(on, false);
    assert_eq!(off, 0xf0);
    assert!(!reader_active(off));
    assert_eq!(next_frame_counter(5), 6);
    assert_eq!(next_frame_counter(u64::MAX), 0);
    assert!(texture_outdated(false, (1, 1, 1), 1, 1, 1));
    assert!(!texture_outdated(true, (1, 2, 3), 1, 2, 3));
    assert!(texture_outdated(true, (1, 2, 3), 1, 2, 4));
    assert_eq!(capture_object_name(CaptureObject::Info, 1234), "GlorpCaptureInfo_1234");
    assert_eq!(capture_object_name(CaptureObject::Frame, 7), "GlorpCaptureFrame_7");
    assert_eq!(capture_object_name(CaptureObject::Texture, 0), "GlorpCaptureTex_0");
    assert_eq!(obs_module_ver(), 32 << 24);
}

#[test]
fn reader_decisions() {
    assert_eq!(backend_check(-1, 2), (true, 1));
    assert_eq!(backend_check(-1, 1), (false, 0));
    assert_eq!(backend_check(1, 1), (true, 1));
    assert_eq!(backend_check(0, 2), (false, 0));
    assert_eq!(tick_action(false, 499, 0, 0), TickAction::Wait);
    assert_eq!(tick_action(false, 500, 0, 0), TickAction::Discover);
    assert_eq!(tick_action(true, 999, 3, 3), TickAction::Wait);
    assert_eq!(tick_action(true, 1000, 3, 3), TickAction::CheckProducer);
    assert_eq!(tick_action(true, 0, 3, 4), TickAction::NewFrame { counter: 4 });
    assert!(needs_texture(1920, 1080, false, 0, 0));
    assert!(!needs_texture(0, 1080, false, 0, 0));
    assert!(!needs_texture(1920, 1080, true, 1920, 1080));
    assert!(needs_texture(1920, 1080, true, 1280, 720));
    assert!(texture_current(true, 1, 2, 1, 2));
    assert!(!texture_current(false, 1, 2, 1, 2));
}

#[test]
fn chrome_window_filter() {
    assert_eq!(chrome_window_action(WM_CHAR, 65, false), ChromeAction::Swallow);
    assert_eq!(chrome_window_action(WM_QUIT, 0, false), ChromeAction::DetachThenPass);
    assert_eq!(chrome_window_action(WM_KEYDOWN, 0x1b, true), ChromeAction::FocusClientThenPass);
    assert_eq!(chrome_window_action(WM_KEYDOWN, 0x1b, false), ChromeAction::Pass { wparam: 0x1b });
    assert_eq!(chrome_window_action(WM_LBUTTONDOWN, 0x9, false), ChromeAction::Pass { wparam: 0x8 });
    assert_eq!(chrome_window_action(WM_MOUSEMOVE, 0x1, true), ChromeAction::Pass { wparam: 0 });
    assert_eq!(chrome_window_action(WM_MOUSEMOVE, 0x1, false), ChromeAction::Pass { wparam: 1 });
    assert_eq!(chrome_window_action(WM_INPUT, 0, false), ChromeAction::InspectRawInput);
    assert!(swallow_raw_input(true, 1));
    assert!(!swallow_raw_input(false, 1));
    assert!(!swallow_raw_input(true, 0));
}

#[test]
fn widget_filter_modes() {
    let (m, d, a) = widget_message(WidgetMode::Normal, false, WM_USER, 2);
    assert_eq!((m, d, a), (WidgetMode::Normal, true, WidgetAction::Swallow));
    assert_eq!(widget_message(m, d, WM_MOUSEWHEEL, 0), (WidgetMode::Normal, true, WidgetAction::ForwardToClient));
    let (m, d, _) = widget_message(m, d, WM_USER, 1);
    assert_eq!(m, WidgetMode::RampBoost);
    assert!(d);
    assert_eq!(widget_message(m, d, WM_MOUSEWHEEL, 0), (WidgetMode::RampBoost, true, WidgetAction::PressSpace));
    let (m, d, _) = widget_message(m, d, WM_USER, 0);
    assert_eq!((m, d), (WidgetMode::RampBoost, false));
    assert_eq!(widget_message(m, d, WM_MOUSEWHEEL, 0), (WidgetMode::RampBoost, false, WidgetAction::Pass));
    let (m, _, _) = widget_message(m, d, WM_USER, 3);
    assert_eq!(m, WidgetMode::Normal);
}

#[test]
fn limiter_spaces_presents() {
    assert_eq!(limiter_step(None, 5_000, 100), (true, Some(5_000)));
    assert_eq!(limiter_step(Some(5_000), 9_000_000, 100), (false, Some(5_000)));
    assert_eq!(limiter_step(Some(5_000), 10_005_000, 100), (true, Some(10_005_000)));
    assert_eq!(limiter_step(Some(5_000), 6_000, 0), (true, Some(5_000)));
    assert!(takes_over_swapchain(800, 600, false));
    assert!(!takes_over_swapchain(800, 600, true));
}
