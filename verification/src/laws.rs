//! Properties of the library as a whole, each proved over the specifications that the
//! functions' own contracts use.
use vstd::prelude::*;
use crate::config::{entries_map, lemma_or_insert_all_present, or_insert, or_insert_all};
use crate::json::Json;
use crate::window::{
    Placement, Position, Rect, WindowState, WINDOWED_STYLE, field, i32_json, position_from_json,
    position_json_ok, toggled, window_state_from_json, wrap_i32,
};
use crate::json::{json_as_bool, json_as_i32};
use crate::lists::kept_defaults;
use crate::capture::{READER_ACTIVE, with_reader_flag};
use crate::web_message::{WebCommandView, flag, web_command_of};
use crate::webview_proc::{WidgetAction, WidgetMode, WM_USER, widget_step};
use crate::userscript::{
    header_end, header_open, iife_at, iife_close, iife_open, is_iife, lemma_leading_ws, prepared_script,
    with_header_applied,
};
use crate::text::is_whitespace;
use crate::render::{limiter_tick, takeover_count, takes_over};
use crate::client::gives_up;
use crate::wide::{lemma_utf16_round_trip, utf16, utf16_lossy};
use crate::resources::{ResourceDecision, first_index, requested_file, resource_decision};
use crate::text::{contains, find_from, lemma_find_from_bounds, occurs_at, parse_u64_spec, split_spec};
use crate::window::creation_state;
use crate::update::{ReleaseUpdate, release_plan, semver_newer, semver_valid};
use crate::web_message::message_parts;
use crate::webview_proc::{
    ChromeAction, MK_LBUTTON, VK_ESCAPE, WM_CHAR, WM_INPUT, WM_KEYDOWN, WM_KEYUP, WM_LBUTTONDBLCLK,
    WM_LBUTTONDOWN, WM_MBUTTONDBLCLK, WM_MBUTTONDOWN, WM_MOUSEMOVE, WM_NCXBUTTONDBLCLK, WM_QUIT,
    WM_RBUTTONDBLCLK, WM_RBUTTONDOWN, WM_XBUTTONDOWN, chrome_action,
};

verus! {

broadcast use vstd::string::group_string_axioms;

/// A setting reads back as the value last stored under its name, and storing a setting
/// leaves every other setting as it was (`Config::set` then `Config::get`).
pub proof fn law_setting_read_after_write(
    settings: Map<Seq<char>, Json>,
    key: Seq<char>,
    value: Json,
    other: Seq<char>,
)
    ensures
        settings.insert(key, value).contains_key(key),
        settings.insert(key, value)[key] == value,
        other != key ==> (settings.insert(key, value).contains_key(other) <==> settings.contains_key(
            other,
        )),
        other != key && settings.contains_key(other) ==> settings.insert(key, value)[other]
            == settings[other],
{
}

/// After the defaults are merged in (`Config::merge_defaults`), every default setting has a
/// value, and every setting that had a value keeps it.
pub proof fn law_defaults_fill_without_overwriting(
    settings: Map<Seq<char>, Json>,
    defaults: Seq<(String, Json)>,
)
    ensures
        forall|i: int|
            0 <= i < defaults.len() ==> or_insert_all(settings, defaults).contains_key(
                #[trigger] defaults[i].0@,
            ),
        forall|k: Seq<char>|
            #[trigger] settings.contains_key(k) ==> or_insert_all(settings, defaults).contains_key(k)
                && or_insert_all(settings, defaults)[k] == settings[k],
    decreases defaults.len(),
{
    if defaults.len() > 0 {
        let d = defaults.drop_last();
        law_defaults_fill_without_overwriting(settings, d);
        let m = or_insert_all(settings, d);
        assert forall|i: int| 0 <= i < defaults.len() implies or_insert_all(
            settings,
            defaults,
        ).contains_key(#[trigger] defaults[i].0@) by {
            if i < defaults.len() - 1 {
                assert(d[i] == defaults[i]);
                assert(m.contains_key(d[i].0@));
            }
        }
    }
}

/// Merging the defaults a second time changes nothing.
pub proof fn law_defaults_merge_idempotent(
    settings: Map<Seq<char>, Json>,
    defaults: Seq<(String, Json)>,
)
    ensures
        or_insert_all(or_insert_all(settings, defaults), defaults) == or_insert_all(
            settings,
            defaults,
        ),
{
    let once = or_insert_all(settings, defaults);
    law_defaults_fill_without_overwriting(settings, defaults);
    lemma_or_insert_all_present(once, defaults);
}

/// Settings saved at exit read back unchanged at the next start: a store that has a value
/// for every default (as every store has once the defaults were merged in at start-up, and
/// storing a setting removes none) is saved as its entries (`Config::entries`), and loading
/// those entries with the same defaults (`load_config`) gives the same settings.
pub proof fn law_saved_settings_reload_unchanged(
    saved: Seq<(String, Json)>,
    defaults: Seq<(String, Json)>,
)
    requires
        forall|i: int| 0 <= i < defaults.len() ==> entries_map(saved).contains_key(#[trigger] defaults[i].0@),
    ensures
        or_insert_all(entries_map(saved), defaults) == entries_map(saved),
{
    lemma_or_insert_all_present(entries_map(saved), defaults);
}


/// Toggling fullscreen twice from a normal window puts the window back where it was: the
/// first toggle remembers the window's rectangle and the second restores it, with the
/// normal style.
pub proof fn law_fullscreen_toggle_round_trip(
    state: WindowState,
    current: Rect,
    later: Rect,
    screen_width: i32,
    screen_height: i32,
)
    requires
        !state.fullscreen,
    ensures
        ({
            let (s1, _) = toggled(state, current, screen_width, screen_height);
            let (s2, p2) = toggled(s1, later, screen_width, screen_height);
            &&& s1.fullscreen
            &&& s2 == WindowState {
                fullscreen: false,
                position: Position {
                    left: current.left,
                    top: current.top,
                    right: current.right,
                    bottom: current.bottom,
                },
            }
            &&& p2 == Placement {
                style: WINDOWED_STYLE,
                x: current.left,
                y: current.top,
                width: wrap_i32(current.right - current.left),
                height: wrap_i32(current.bottom - current.top),
            }
        }),
{
}

/// An `i32` written as JSON reads back as itself.
proof fn lemma_i32_json(n: i32)
    ensures
        json_as_i32(i32_json(n)) == Some(n),
{
}

/// A position written as JSON (`position_to_json`) reads back as itself.
pub proof fn law_position_json_round_trip(p: Position, v: Json)
    requires
        position_json_ok(p, v),
    ensures
        position_from_json(v) == Some(p),
{
    lemma_i32_json(p.left);
    lemma_i32_json(p.top);
    lemma_i32_json(p.right);
    lemma_i32_json(p.bottom);
    let fields = v->Object_0@;
    reveal_strlit("left");
    reveal_strlit("top");
    reveal_strlit("right");
    reveal_strlit("bottom");
    let f1 = fields.drop_first();
    let f2 = f1.drop_first();
    let f3 = f2.drop_first();
    assert("left"@[0] != "top"@[0] && "left"@[0] != "right"@[0] && "left"@[0] != "bottom"@[0]);
    assert("top"@[0] != "right"@[0] && "top"@[0] != "bottom"@[0]);
    assert("right"@[0] != "bottom"@[0]);
    assert(f1[0] == fields[1] && f2[0] == fields[2] && f3[0] == fields[3]);
    assert(field(fields, "left"@) == Some(fields[0].1));
    assert(field(f1, "top"@) == Some(fields[1].1));
    assert(field(fields, "top"@) == Some(fields[1].1));
    assert(field(f2, "right"@) == Some(fields[2].1));
    assert(field(f1, "right"@) == Some(fields[2].1));
    assert(field(fields, "right"@) == Some(fields[2].1));
    assert(field(f3, "bottom"@) == Some(fields[3].1));
    assert(field(f2, "bottom"@) == Some(fields[3].1));
    assert(field(f1, "bottom"@) == Some(fields[3].1));
    assert(field(fields, "bottom"@) == Some(fields[3].1));
}

/// The window state that is saved when a window closes (`window_state_to_json`) is the one
/// read back at the next start (`window_state_from_json_exec`).
pub proof fn law_window_state_json_round_trip(s: WindowState, v: Json)
    requires
        v matches Json::Object(fields) && fields.len() == 2 && fields@[0].0@ == "fullscreen"@
            && fields@[0].1 == Json::Bool(s.fullscreen) && fields@[1].0@ == "position"@
            && position_json_ok(s.position, fields@[1].1),
    ensures
        window_state_from_json(v) == Some(s),
{
    let fields = v->Object_0@;
    law_position_json_round_trip(s.position, fields[1].1);
    reveal_strlit("fullscreen");
    reveal_strlit("position");
    assert(field(fields, "fullscreen"@) == Some(fields[0].1));
    let f1 = fields.drop_first();
    assert(f1[0] == fields[1]);
    assert("fullscreen"@[0] != "position"@[0]);
    assert(field(f1, "position"@) == Some(fields[1].1));
    assert(field(fields, "position"@) == Some(fields[1].1));
    assert(json_as_bool(fields[0].1) == Some(s.fullscreen));
}

/// Every script handed to the page is an immediately invoked function expression: a
/// script that is not one already is wrapped in one.
pub proof fn law_prepared_script_is_iife(script: Seq<char>)
    ensures
        is_iife(prepared_script(script)),
{
    let t = with_header_applied(script);
    if !is_iife(t) {
        reveal_strlit("(function() {\n");
        reveal_strlit("\n})();");
        let u = iife_open() + t + iife_close();
        let n = u.len() as int;
        assert(iife_open().len() == 14);
        assert(iife_close().len() == 6);
        assert(u[0] == '(');
        assert(u[n - 4] == iife_close()[2]);
        assert(u[n - 3] == iife_close()[3]);
        assert(u[n - 2] == iife_close()[4]);
        assert(u[n - 1] == iife_close()[5]);
        assert(iife_at(u, 0, 0, n - 4, n - 3, n - 2, n - 1, n));
    }
}

/// A script that is an immediately invoked function expression has no header block: it
/// begins, after whitespace, with `(` or a quote, not with `//`.
proof fn lemma_iife_has_no_header(s: Seq<char>)
    requires
        is_iife(s),
    ensures
        header_end(s) is None,
{
    let (w, p, c, d, e, g, f) = choose|w: int, p: int, c: int, d: int, e: int, g: int, f: int|
        iife_at(s, w, p, c, d, e, g, f);
    assert(iife_at(s, w, p, c, d, e, g, f));
    assert(w < s.len());
    assert(s[w] == '(' || s[w] == '\'' || s[w] == '"');
    assert(!is_whitespace(s[w]));
    lemma_leading_ws(s, w);
    reveal_strlit("// ==UserScript==");
    if occurs_at(s, header_open(), w) {
        assert(s.subrange(w, w + header_open().len())[0] == s[w]);
        assert(header_open()[0] == '/');
    }
}

/// Preparing a script twice gives what preparing it once gives: a prepared script is handed
/// to the page as it is.
pub proof fn law_prepared_script_idempotent(script: Seq<char>)
    ensures
        prepared_script(prepared_script(script)) == prepared_script(script),
{
    law_prepared_script_is_iife(script);
    let r = prepared_script(script);
    lemma_iife_has_no_header(r);
    assert(with_header_applied(r) == r);
}

/// The final blocklist or flag list holds exactly the defaults that were not disabled and
/// the user's own entries.
pub proof fn law_final_list_membership(
    defaults: Seq<Seq<char>>,
    disabled: Seq<Seq<char>>,
    extra: Seq<Seq<char>>,
    x: Seq<char>,
)
    ensures
        (kept_defaults(defaults, disabled) + extra).contains(x) <==> (defaults.contains(x)
            && !disabled.contains(x)) || extra.contains(x),
{
    lemma_kept_defaults(defaults, disabled, x);
    let k = kept_defaults(defaults, disabled);
    if (k + extra).contains(x) {
        let i = choose|i: int| 0 <= i < (k + extra).len() && (k + extra)[i] == x;
        if i >= k.len() {
            assert(extra[i - k.len()] == x);
        }
    }
    if extra.contains(x) {
        let i = choose|i: int| 0 <= i < extra.len() && extra[i] == x;
        assert((k + extra)[k.len() + i] == x);
    }
    if k.contains(x) {
        let i = choose|i: int| 0 <= i < k.len() && k[i] == x;
        assert((k + extra)[i] == x);
    }
}

proof fn lemma_kept_defaults(defaults: Seq<Seq<char>>, disabled: Seq<Seq<char>>, x: Seq<char>)
    ensures
        kept_defaults(defaults, disabled).contains(x) <==> defaults.contains(x) && !disabled.contains(x),
    decreases defaults.len(),
{
    if defaults.len() > 0 {
        let d = defaults.drop_last();
        lemma_kept_defaults(d, disabled, x);
        let k = kept_defaults(d, disabled);
        if d.contains(x) {
            let i = choose|i: int| 0 <= i < d.len() && d[i] == x;
            assert(defaults[i] == x);
        }
        if defaults.contains(x) {
            let i = choose|i: int| 0 <= i < defaults.len() && defaults[i] == x;
            if i < defaults.len() - 1 {
                assert(d[i] == x);
            }
        }
        if !disabled.contains(defaults.last()) {
            let k2 = k.push(defaults.last());
            if k2.contains(x) {
                let i = choose|i: int| 0 <= i < k2.len() && k2[i] == x;
                if i < k.len() {
                    assert(k[i] == x);
                }
            }
            if k.contains(x) {
                let i = choose|i: int| 0 <= i < k.len() && k[i] == x;
                assert(k2[i] == x);
            }
            if x == defaults.last() {
                assert(k2[k.len() as int] == x);
            }
        }
    }
}

/// The page's `drag` message sets the render widget's drag state to the opposite of the
/// flag it carries, whichever scrolling mode the widget is in, and leaves that mode as it
/// is.
pub proof fn law_drag_message_sets_widget_drag(
    value: Seq<char>,
    mode: WidgetMode,
    drag: bool,
)
    ensures
        ({
            let parts = seq!["drag"@, value];
            let cmd = web_command_of(parts);
            &&& cmd matches WebCommandView::Drag { wparam }
            &&& widget_step(mode, drag, WM_USER, cmd->Drag_wparam) == (mode, !flag(value), WidgetAction::Swallow)
        }),
{
    reveal_strlit("drag");
    reveal_strlit("set-config");
    reveal_strlit("obs-plugin");
    reveal_strlit("get-info");
    assert("drag"@.len() != "obs-plugin"@.len());
    assert("drag"@.len() != "get-info"@.len());
}

/// Switching the ramp boost on and then off (`toggle-rboost` with `true`, then `false`)
/// brings the render widget back to its normal mode with its drag state unchanged.
pub proof fn law_ramp_boost_round_trip(drag: bool)
    ensures
        ({
            let (m1, d1, _) = widget_step(WidgetMode::Normal, drag, WM_USER, 1);
            let (m2, d2, _) = widget_step(m1, d1, WM_USER, 3);
            m1 == WidgetMode::RampBoost && m2 == WidgetMode::Normal && d2 == drag
        }),
{
}

/// The reader flag reads back as it was last set, and setting it keeps every other bit.
pub proof fn law_reader_flag_round_trip(flags: u32, on: bool)
    ensures
        (with_reader_flag(flags, on) & READER_ACTIVE != 0) == on,
        with_reader_flag(flags, on) & !READER_ACTIVE == flags & !READER_ACTIVE,
{
    assert((flags | 1u32) & 1u32 != 0 && (flags | 1u32) & !1u32 == flags & !1u32) by (bit_vector);
    assert((flags & !1u32) & 1u32 == 0 && (flags & !1u32) & !1u32 == flags & !1u32) by (bit_vector);
}


/// A text without the separator splits into itself alone.
proof fn lemma_split_without_separator(s: Seq<char>, sep: Seq<char>)
    requires
        sep.len() > 0,
        !contains(s, sep),
    ensures
        split_spec(s, sep) == seq![s],
{
    lemma_find_from_bounds(s, sep, 0);
    if find_from(s, sep, 0) is Some {
        assert(occurs_at(s, sep, find_from(s, sep, 0).unwrap()));
    }
}

/// A file of the resource swapper is served in place of the game file at its relative
/// path: a request for `https://krunker.io/` followed by that path (with no query) is
/// answered with the first swapped file of that name, unless it is a game-info or
/// ranked-lobby request, which goes through with a notice.
pub proof fn law_swapped_file_served(rel: Seq<char>, names: Seq<Seq<char>>)
    requires
        first_index(names, rel) is Some,
        !contains(rel, "?"@),
        !contains(rel, "krunker.io/"@),
        !contains("https://krunker.io/"@ + rel, "game-info"@),
        !contains("https://krunker.io/"@ + rel, "lobby-ranked"@),
    ensures
        resource_decision("https://krunker.io/"@ + rel, names) == (ResourceDecision::Swap {
            index: first_index(names, rel).unwrap() as usize,
        }),
{
    reveal_strlit("https://krunker.io/");
    reveal_strlit("krunker.io/");
    reveal_strlit("krunker.io");
    reveal_strlit("?");
    let uri = "https://krunker.io/"@ + rel;
    let sep = "krunker.io/"@;
    assert(uri.subrange(8, 18) =~= "krunker.io"@);
    assert(occurs_at(uri, "krunker.io"@, 8));
    assert(uri.subrange(8, 19) =~= sep);
    assert(occurs_at(uri, sep, 8));
    lemma_find_from_bounds(uri, sep, 0);
    assert forall|k: int| 0 <= k < 8 implies !occurs_at(uri, sep, k) by {
        assert(uri.subrange(k, k + sep.len())[0] == uri[k]);
    }
    assert(find_from(uri, sep, 0) == Some(8int));
    assert(uri.skip(19) =~= rel);
    lemma_split_without_separator(rel, sep);
    lemma_split_without_separator(rel, "?"@);
    assert(split_spec(uri, sep) =~= seq![uri.take(8)] + seq![rel]);
    assert(requested_file(uri) == rel);
}


/// A string handed to a wide Win32 function (`create_utf_string`: its UTF-16 form and a
/// terminating zero) decodes back to itself (`String::from_utf16_lossy` of the units before
/// the zero).
pub proof fn law_wide_string_round_trip(s: Seq<char>)
    ensures
        utf16(s).push(0).last() == 0,
        utf16_lossy(utf16(s).push(0).drop_last()) == s,
{
    assert(utf16(s).push(0).drop_last() =~= utf16(s));
    lemma_utf16_round_trip(s);
}


/// Successive presents that the frame limiter lets go are at least one frame time of the
/// limit apart: when it lets a present go at `now` after a stamp `prev` (and the clock does
/// not run backwards), `now` is at least one frame time after `prev` and becomes the new
/// stamp. Without a limit the limiter never holds a present and leaves its stamp as it is.
pub proof fn law_limiter_spacing(last: Option<u64>, now: u64, target_fps: u64)
    requires
        last matches Some(prev) ==> prev <= now,
    ensures
        target_fps > 0 && last is Some && limiter_tick(last, now, target_fps).0 ==> now >= last.unwrap()
            + 1_000_000_000u64 / target_fps,
        target_fps > 0 && limiter_tick(last, now, target_fps).0 ==> limiter_tick(last, now, target_fps).1
            == Some(now),
        target_fps == 0 ==> limiter_tick(last, now, target_fps) == (true, last),
{
}

/// Once a main swap chain was created, no other swap chain is taken over.
proof fn lemma_no_takeover_after_main(sizes: Seq<(u32, u32)>)
    ensures
        takeover_count(sizes, true) == 0,
    decreases sizes.len(),
{
    if sizes.len() > 0 {
        lemma_no_takeover_after_main(sizes.drop_first());
    }
}

/// Of the swap chains the browser requests, the hook takes over at most one: the first that
/// is at least 600 by 600.
pub proof fn law_swapchain_taken_over_once(sizes: Seq<(u32, u32)>)
    ensures
        takeover_count(sizes, false) <= 1,
    decreases sizes.len(),
{
    if sizes.len() > 0 {
        if takes_over(sizes[0].0, sizes[0].1, false) {
            lemma_no_takeover_after_main(sizes.drop_first());
        } else {
            law_swapchain_taken_over_once(sizes.drop_first());
        }
    }
}

/// A process retries a failed injection at most once: the error count is shared, and only
/// a failure with no error counted before it is retried.
pub proof fn law_injection_retried_once(errors_before: u32)
    ensures
        !gives_up(errors_before) <==> errors_before == 0,
{
}


/// The limiter lets a present go as soon as one frame time has passed: with a limit and a
/// stamp `prev` no later than `now`, the present goes (and `now` becomes the stamp) exactly
/// when at least one frame time of the limit lies between them; before that it is held and
/// the stamp is kept. Without a stamp the present goes and is stamped.
pub proof fn law_limiter_lets_present_go(prev: u64, now: u64, target_fps: u64)
    requires
        target_fps > 0,
        prev <= now,
    ensures
        now - prev >= 1_000_000_000u64 / target_fps ==> limiter_tick(Some(prev), now, target_fps) == (
            true,
            Some(now),
        ),
        now - prev < 1_000_000_000u64 / target_fps ==> limiter_tick(Some(prev), now, target_fps) == (
            false,
            Some(prev),
        ),
        limiter_tick(None, now, target_fps) == (true, Some(now)),
{
}

/// A window started in the `Remember Previous` mode comes back exactly as it was remembered,
/// fullscreen flag and rectangle alike, whatever the screen.
pub proof fn law_remember_previous_restores(
    s: WindowState,
    screen_width: i32,
    screen_height: i32,
    windowed_width: i32,
    windowed_height: i32,
)
    ensures
        creation_state("Remember Previous"@, Some(s), screen_width, screen_height, windowed_width, windowed_height)
            == s,
{
    reveal_strlit("Remember Previous");
    reveal_strlit("Borderless Fullscreen");
    reveal_strlit("Maximized");
    assert("Remember Previous"@.len() != "Borderless Fullscreen"@.len());
    assert("Remember Previous"@.len() != "Maximized"@.len());
}

/// The window state saved when the client closes (`window_state_to_json`) is the state the
/// next start creates in the `Remember Previous` mode (`start_state`, then
/// `window_creation_state`).
pub proof fn law_saved_window_restored(
    s: WindowState,
    saved: Json,
    screen_width: i32,
    screen_height: i32,
    windowed_width: i32,
    windowed_height: i32,
)
    requires
        saved matches Json::Object(fields) && fields.len() == 2 && fields@[0].0@ == "fullscreen"@
            && fields@[0].1 == Json::Bool(s.fullscreen) && fields@[1].0@ == "position"@
            && position_json_ok(s.position, fields@[1].1),
    ensures
        creation_state(
            "Remember Previous"@,
            window_state_from_json(saved),
            screen_width,
            screen_height,
            windowed_width,
            windowed_height,
        ) == s,
{
    law_window_state_json_round_trip(s, saved);
    law_remember_previous_restores(s, screen_width, screen_height, windowed_width, windowed_height);
}

/// A newer release is downloaded from the `browser_download_url` of the first element of its
/// `assets` array, saved as `version.<tag><extension>`.
pub proof fn law_release_downloads_first_asset(
    fields: Seq<(String, Json)>,
    tag: String,
    items: Vec<Json>,
    asset: Seq<(String, Json)>,
    url: String,
    current: Seq<char>,
    extension: Seq<char>,
    r: ReleaseUpdate,
)
    requires
        field(fields, "tag_name"@) == Some(Json::Str(tag)),
        field(fields, "assets"@) == Some(Json::Array(items)),
        items@.len() > 0,
        items@[0] matches Json::Object(a) && a@ == asset,
        field(asset, "browser_download_url"@) == Some(Json::Str(url)),
        semver_valid(tag@),
        semver_valid(current),
        semver_newer(tag@, current),
    ensures
        forall|release: Json|
            release matches Json::Object(f) && f@ == fields ==> (release_plan(release, current, extension, r)
                ==> (r matches ReleaseUpdate::Download { version, url: u, file_name } && u@ == url@
                && version@ == tag@ && file_name@ == "version."@ + tag@ + extension)),
{
}

/// A `set-config` message for the render frame limit carries the new limit exactly when its
/// value reads as a `u64` (0 included, which switches the limit off): the limit is that
/// number.
pub proof fn law_fps_limit_message(msg: Seq<char>)
    requires
        message_parts(msg).len() == 3,
        message_parts(msg)[0] == "set-config"@,
        message_parts(msg)[1] == "renderFpsLimit"@,
    ensures
        web_command_of(message_parts(msg)) matches WebCommandView::SetConfig { setting, value, fps_limit }
            && setting == "renderFpsLimit"@ && value == message_parts(msg)[2] && fps_limit
            == parse_u64_spec(message_parts(msg)[2]),
{
}

/// The top-level Chrome window's filter: typed characters are consumed; a quit removes the
/// hooks; Escape while dragging gives the focus back to the client and other keys pass
/// unchanged; each of the eight button presses passes with the left-button bit cleared; a
/// mouse move loses that bit only while dragging; raw input is inspected; every other
/// message passes unchanged.
pub proof fn law_chrome_filter(msg: u32, wparam: usize, drag: bool)
    ensures
        msg == WM_CHAR ==> chrome_action(msg, wparam, drag) == ChromeAction::Swallow,
        msg == WM_QUIT ==> chrome_action(msg, wparam, drag) == ChromeAction::DetachThenPass,
        (msg == WM_KEYDOWN || msg == WM_KEYUP) && wparam == VK_ESCAPE && drag ==> chrome_action(
            msg,
            wparam,
            drag,
        ) == ChromeAction::FocusClientThenPass,
        (msg == WM_KEYDOWN || msg == WM_KEYUP) && !(wparam == VK_ESCAPE && drag) ==> chrome_action(
            msg,
            wparam,
            drag,
        ) == (ChromeAction::Pass { wparam }),
        msg == WM_LBUTTONDOWN || msg == WM_LBUTTONDBLCLK || msg == WM_RBUTTONDOWN || msg
            == WM_RBUTTONDBLCLK || msg == WM_XBUTTONDOWN || msg == WM_NCXBUTTONDBLCLK || msg
            == WM_MBUTTONDOWN || msg == WM_MBUTTONDBLCLK ==> chrome_action(msg, wparam, drag) == (
        ChromeAction::Pass { wparam: wparam & !MK_LBUTTON }),
        msg == WM_MOUSEMOVE ==> chrome_action(msg, wparam, drag) == (ChromeAction::Pass {
            wparam: if drag {
                wparam & !MK_LBUTTON
            } else {
                wparam
            },
        }),
        msg == WM_INPUT ==> chrome_action(msg, wparam, drag) == ChromeAction::InspectRawInput,
        !(msg == WM_CHAR || msg == WM_QUIT || msg == WM_KEYDOWN || msg == WM_KEYUP || msg
            == WM_LBUTTONDOWN || msg == WM_LBUTTONDBLCLK || msg == WM_RBUTTONDOWN || msg
            == WM_RBUTTONDBLCLK || msg == WM_XBUTTONDOWN || msg == WM_NCXBUTTONDBLCLK || msg
            == WM_MBUTTONDOWN || msg == WM_MBUTTONDBLCLK || msg == WM_MOUSEMOVE || msg == WM_INPUT)
            ==> chrome_action(msg, wparam, drag) == (ChromeAction::Pass { wparam }),
{
}


/// Where the other start modes place a new window: `Borderless Fullscreen` covers the screen
/// fullscreen, `Maximized` covers it windowed, `Custom` takes the given state, and `Custom`
/// without one, like any unknown mode, centres a window of the given size.
pub proof fn law_start_mode_placement(
    mode: Seq<char>,
    init_state: Option<WindowState>,
    screen_width: i32,
    screen_height: i32,
    windowed_width: i32,
    windowed_height: i32,
)
    requires
        0 <= windowed_width <= screen_width,
        0 <= windowed_height <= screen_height,
    ensures
        mode == "Borderless Fullscreen"@ ==> creation_state(mode, init_state, screen_width, screen_height, windowed_width, windowed_height)
            == (WindowState {
            fullscreen: true,
            position: Position { left: 0, top: 0, right: screen_width, bottom: screen_height },
        }),
        mode == "Maximized"@ ==> creation_state(mode, init_state, screen_width, screen_height, windowed_width, windowed_height)
            == (WindowState {
            fullscreen: false,
            position: Position { left: 0, top: 0, right: screen_width, bottom: screen_height },
        }),
        mode == "Custom"@ && init_state is Some ==> creation_state(mode, init_state, screen_width, screen_height, windowed_width, windowed_height)
            == init_state.unwrap(),
        (mode == "Custom"@ && init_state is None) || (mode != "Borderless Fullscreen"@ && mode
            != "Maximized"@ && mode != "Remember Previous"@ && mode != "Custom"@) ==> ({
            let r = creation_state(mode, init_state, screen_width, screen_height, windowed_width, windowed_height);
            &&& !r.fullscreen
            &&& r.position.right - r.position.left == windowed_width
            &&& r.position.bottom - r.position.top == windowed_height
            &&& r.position.left == (screen_width - windowed_width) / 2
            &&& r.position.top == (screen_height - windowed_height) / 2
        }),
{
    reveal_strlit("Remember Previous");
    reveal_strlit("Borderless Fullscreen");
    reveal_strlit("Maximized");
    reveal_strlit("Custom");
    assert("Custom"@.len() != "Borderless Fullscreen"@.len());
    assert("Custom"@.len() != "Maximized"@.len());
    assert("Custom"@.len() != "Remember Previous"@.len());
    assert("Maximized"@.len() != "Borderless Fullscreen"@.len());
}

/// The release check's other outcomes: a release without a string `tag_name` is no update;
/// an unreadable tag or running version stops the check; a release that is not newer than
/// the running version is up to date; a newer release whose `assets` array has no first
/// element with a string `browser_download_url` has no asset.
pub proof fn law_release_other_outcomes(release: Json, current: Seq<char>, extension: Seq<char>, r: ReleaseUpdate)
    requires
        release_plan(release, current, extension, r),
    ensures
        !(release matches Json::Object(f) && field(f@, "tag_name"@) matches Some(Json::Str(_))) ==> r is NoTag,
        match release {
            Json::Object(f) => match field(f@, "tag_name"@) {
                Some(Json::Str(t)) => {
                    &&& !semver_valid(t@) ==> r is TagUnreadable
                    &&& semver_valid(t@) && !semver_valid(current) ==> r is CurrentUnreadable
                    &&& semver_valid(t@) && semver_valid(current) && !semver_newer(t@, current) ==> r is UpToDate
                    &&& semver_valid(t@) && semver_valid(current) && semver_newer(t@, current) && !(match release {
                        Json::Object(f2) => match field(f2@, "assets"@) {
                            Some(Json::Array(items)) => items@.len() > 0 && match items@[0] {
                                Json::Object(a) => match field(a@, "browser_download_url"@) {
                                    Some(Json::Str(_)) => true,
                                    _ => false,
                                },
                                _ => false,
                            },
                            _ => false,
                        },
                        _ => false,
                    }) ==> r is NoAsset
                },
                _ => true,
            },
            _ => true,
        },
{
}


} // verus!
