//! Window geometry and the window state that the client remembers between runs: where a
//! new window goes, what the fullscreen toggle does, and which keys do what.
use vstd::prelude::*;
use crate::json::{Json, JsonNumber, json_as_bool, json_as_i32, as_bool, as_i32};
use crate::text::{chars_of, same_chars, str_is, string_of};
use crate::wide::{LOWORD, HIWORD};

verus! {

broadcast use vstd::string::group_string_axioms;

/// A rectangle by its edges, as Win32 `RECT` gives it.
#[derive(Clone, Copy, Debug, PartialEq, Eq, Structural)]
pub struct Rect {
    pub left: i32,
    pub top: i32,
    pub right: i32,
    pub bottom: i32,
}

/// A window position by its edges.
#[derive(Clone, Copy, Debug, PartialEq, Eq, Structural)]
pub struct Position {
    pub left: i32,
    pub top: i32,
    pub right: i32,
    pub bottom: i32,
}

/// Whether a window is fullscreen and where it is (or was, before going fullscreen).
#[derive(Clone, Copy, Debug, PartialEq, Eq, Structural)]
pub struct WindowState {
    pub fullscreen: bool,
    pub position: Position,
}

/// An integer brought into the range of `i32` as two's-complement arithmetic wraps it
/// (for values less than one wrap away from the range).
pub open spec fn wrap_i32(x: int) -> i32 {
    if x > i32::MAX {
        (x - 0x1_0000_0000) as i32
    } else if x < i32::MIN {
        (x + 0x1_0000_0000) as i32
    } else {
        x as i32
    }
}

impl Position {
    /// The position of a window rectangle.
    pub fn from(rect: Rect) -> (r: Position)
        ensures
            r == (Position { left: rect.left, top: rect.top, right: rect.right, bottom: rect.bottom }),
    {
        Position { left: rect.left, top: rect.top, right: rect.right, bottom: rect.bottom }
    }

    /// The origin and size of the position, as `SetWindowPos` and `CreateWindowExW` take
    /// them; the size wraps as the release build's arithmetic does.
    pub fn placement(&self) -> (r: (i32, i32, i32, i32))
        ensures
            r == (self.left, self.top, wrap_i32(self.right - self.left), wrap_i32(self.bottom - self.top)),
    {
        (self.left, self.top, self.right.wrapping_sub(self.left), self.bottom.wrapping_sub(self.top))
    }
}

impl Default for Position {
    fn default() -> (r: Position)
        ensures
            r == (Position { left: 0, top: 0, right: 0, bottom: 0 }),
    {
        Position { left: 0, top: 0, right: 0, bottom: 0 }
    }
}

impl Default for WindowState {
    fn default() -> (r: WindowState)
        ensures
            r == (WindowState { fullscreen: false, position: Position { left: 0, top: 0, right: 0, bottom: 0 } }),
    {
        WindowState { fullscreen: false, position: Position::default() }
    }
}

/// The state a new window is created in. The fallback covers the whole screen, fullscreen;
/// `Borderless Fullscreen` keeps it, `Maximized` keeps the rectangle without fullscreen,
/// `Remember Previous` takes the remembered state when there is one, `Custom` takes the
/// given state or else a centred window, and any other mode gets the centred window. The
/// centred window has the size `windowed_width` by `windowed_height` (four fifths of the
/// screen, which the caller computes).
pub open spec fn creation_state(
    start_mode: Seq<char>,
    init_state: Option<WindowState>,
    screen_width: i32,
    screen_height: i32,
    windowed_width: i32,
    windowed_height: i32,
) -> WindowState {
    let full = WindowState {
        fullscreen: true,
        position: Position { left: 0, top: 0, right: screen_width, bottom: screen_height },
    };
    let left = (screen_width - windowed_width) / 2;
    let top = (screen_height - windowed_height) / 2;
    let windowed = WindowState {
        fullscreen: false,
        position: Position {
            left: left as i32,
            top: top as i32,
            right: (left + windowed_width) as i32,
            bottom: (top + windowed_height) as i32,
        },
    };
    if start_mode == "Borderless Fullscreen"@ {
        full
    } else if start_mode == "Maximized"@ {
        WindowState { fullscreen: false, position: full.position }
    } else if start_mode == "Remember Previous"@ {
        match init_state {
            Some(s) => s,
            None => full,
        }
    } else if start_mode == "Custom"@ {
        match init_state {
            Some(s) => s,
            None => windowed,
        }
    } else {
        windowed
    }
}

/// The state a new window is created in.
pub fn window_creation_state(
    start_mode: &str,
    init_state: Option<WindowState>,
    screen_width: i32,
    screen_height: i32,
    windowed_width: i32,
    windowed_height: i32,
) -> (r: WindowState)
    requires
        0 <= windowed_width <= screen_width,
        0 <= windowed_height <= screen_height,
    ensures
        r == creation_state(
            start_mode@,
            init_state,
            screen_width,
            screen_height,
            windowed_width,
            windowed_height,
        ),
{
    let full = WindowState {
        fullscreen: true,
        position: Position { left: 0, top: 0, right: screen_width, bottom: screen_height },
    };
    let left = (screen_width - windowed_width) / 2;
    let top = (screen_height - windowed_height) / 2;
    let windowed = WindowState {
        fullscreen: false,
        position: Position {
            left,
            top,
            right: left + windowed_width,
            bottom: top + windowed_height,
        },
    };
    if str_is(start_mode, "Borderless Fullscreen") {
        full
    } else if str_is(start_mode, "Maximized") {
        WindowState { fullscreen: false, position: full.position }
    } else if str_is(start_mode, "Remember Previous") {
        match init_state {
            Some(s) => s,
            None => full,
        }
    } else if str_is(start_mode, "Custom") {
        match init_state {
            Some(s) => s,
            None => windowed,
        }
    } else {
        windowed
    }
}

/// The window style of a normal window (`WS_VISIBLE | WS_OVERLAPPEDWINDOW`).
pub const WINDOWED_STYLE: u32 = 0x10CF_0000;

/// The window style of a fullscreen window (`WS_VISIBLE`).
pub const FULLSCREEN_STYLE: u32 = 0x1000_0000;

/// What the fullscreen toggle asks of the window: a style, an origin and a size.
#[derive(Clone, Copy, Debug, PartialEq, Eq, Structural)]
pub struct Placement {
    pub style: u32,
    pub x: i32,
    pub y: i32,
    pub width: i32,
    pub height: i32,
}

/// What the fullscreen toggle does: a fullscreen window goes back to its remembered
/// position with the normal style; a normal window remembers its current rectangle and
/// covers the screen.
pub open spec fn toggled(state: WindowState, current: Rect, screen_width: i32, screen_height: i32) -> (
    WindowState,
    Placement,
) {
    if state.fullscreen {
        (
            WindowState { fullscreen: false, position: state.position },
            Placement {
                style: WINDOWED_STYLE,
                x: state.position.left,
                y: state.position.top,
                width: wrap_i32(state.position.right - state.position.left),
                height: wrap_i32(state.position.bottom - state.position.top),
            },
        )
    } else {
        (
            WindowState {
                fullscreen: true,
                position: Position {
                    left: current.left,
                    top: current.top,
                    right: current.right,
                    bottom: current.bottom,
                },
            },
            Placement { style: FULLSCREEN_STYLE, x: 0, y: 0, width: screen_width, height: screen_height },
        )
    }
}

/// Toggles fullscreen.
pub fn toggle_fullscreen(state: WindowState, current: Rect, screen_width: i32, screen_height: i32) -> (r: (
    WindowState,
    Placement,
))
    ensures
        r == toggled(state, current, screen_width, screen_height),
{
    if state.fullscreen {
        let (x, y, width, height) = state.position.placement();
        (
            WindowState { fullscreen: false, position: state.position },
            Placement { style: WINDOWED_STYLE, x, y, width, height },
        )
    } else {
        (
            WindowState { fullscreen: true, position: Position::from(current) },
            Placement { style: FULLSCREEN_STYLE, x: 0, y: 0, width: screen_width, height: screen_height },
        )
    }
}

/// A window with this style is fullscreen: it has none of the `WS_OVERLAPPEDWINDOW` bits.
pub fn fullscreen_from_style(style: u32) -> (r: bool)
    ensures
        r == (style & 0x00CF_0000 == 0),
{
    style & 0x00CF_0000 == 0
}

/// The client area that a `WM_SIZE` message's parameter describes.
pub fn client_bounds(lparam: usize) -> (r: Rect)
    ensures
        r == (Rect {
            left: 0,
            top: 0,
            right: (lparam % 0x10000) as i32,
            bottom: ((lparam / 0x10000) % 0x10000) as i32,
        }),
{
    let w = LOWORD(lparam);
    let h = HIWORD(lparam);
    Rect { left: 0, top: 0, right: w as i32, bottom: h as i32 }
}

/// The state of a window that a page opens with a position and a size; the right and bottom
/// edges wrap as the release build's arithmetic does.
pub fn requested_window_state(left: u32, top: u32, width: u32, height: u32) -> (r: WindowState)
    ensures
        r == (WindowState {
            fullscreen: false,
            position: Position {
                left: left as i32,
                top: top as i32,
                right: wrap_i32(left as i32 + width as i32),
                bottom: wrap_i32(top as i32 + height as i32),
            },
        }),
{
    WindowState {
        fullscreen: false,
        position: Position {
            left: left as i32,
            top: top as i32,
            right: (left as i32).wrapping_add(width as i32),
            bottom: (top as i32).wrapping_add(height as i32),
        },
    }
}

/// What a key does in the main window.
#[derive(Clone, Copy, Debug, PartialEq, Eq, Structural)]
pub enum KeyAction {
    /// F4 or F6: reset throttling and go to the home page.
    Home,
    /// F5: reset throttling and reload.
    Reload,
    /// F11: toggle fullscreen.
    ToggleFullscreen,
    /// F12: open the developer tools.
    DevTools,
    /// Any other key.
    Nothing,
}

/// What a virtual key does in the main window.
pub fn accelerator_action(key: u16) -> (r: KeyAction)
    ensures
        r == (if key == 0x73 || key == 0x75 {
            KeyAction::Home
        } else if key == 0x74 {
            KeyAction::Reload
        } else if key == 0x7a {
            KeyAction::ToggleFullscreen
        } else if key == 0x7b {
            KeyAction::DevTools
        } else {
            KeyAction::Nothing
        }),
{
    if key == 0x73 || key == 0x75 {
        KeyAction::Home
    } else if key == 0x74 {
        KeyAction::Reload
    } else if key == 0x7a {
        KeyAction::ToggleFullscreen
    } else if key == 0x7b {
        KeyAction::DevTools
    } else {
        KeyAction::Nothing
    }
}

// ---------------------------------------------------------------------------
// The remembered state as JSON
// ---------------------------------------------------------------------------

/// The value of the first field named `key` of a JSON object.
pub open spec fn field(fields: Seq<(String, Json)>, key: Seq<char>) -> Option<Json>
    decreases fields.len(),
{
    if fields.len() == 0 {
        None
    } else if fields[0].0@ == key {
        Some(fields[0].1)
    } else {
        field(fields.drop_first(), key)
    }
}

/// A position read from JSON as its derived deserialisation reads it: an object with the
/// four integer edges (other fields are ignored), or an array of exactly the four edges.
pub open spec fn position_from_json(v: Json) -> Option<Position> {
    match v {
        Json::Object(fields) => {
            let l = field(fields@, "left"@);
            let t = field(fields@, "top"@);
            let r = field(fields@, "right"@);
            let b = field(fields@, "bottom"@);
            if l is Some && t is Some && r is Some && b is Some && json_as_i32(l.unwrap()) is Some
                && json_as_i32(t.unwrap()) is Some && json_as_i32(r.unwrap()) is Some
                && json_as_i32(b.unwrap()) is Some {
                Some(Position {
                    left: json_as_i32(l.unwrap()).unwrap(),
                    top: json_as_i32(t.unwrap()).unwrap(),
                    right: json_as_i32(r.unwrap()).unwrap(),
                    bottom: json_as_i32(b.unwrap()).unwrap(),
                })
            } else {
                None
            }
        },
        Json::Array(items) => {
            if items.len() == 4 && json_as_i32(items@[0]) is Some && json_as_i32(items@[1]) is Some
                && json_as_i32(items@[2]) is Some && json_as_i32(items@[3]) is Some {
                Some(Position {
                    left: json_as_i32(items@[0]).unwrap(),
                    top: json_as_i32(items@[1]).unwrap(),
                    right: json_as_i32(items@[2]).unwrap(),
                    bottom: json_as_i32(items@[3]).unwrap(),
                })
            } else {
                None
            }
        },
        _ => None,
    }
}

/// A window state read from JSON as its derived deserialisation reads it: an object with a
/// boolean `fullscreen` and a `position` (other fields are ignored), or an array of exactly
/// those two.
pub open spec fn window_state_from_json(v: Json) -> Option<WindowState> {
    match v {
        Json::Object(fields) => {
            let f = field(fields@, "fullscreen"@);
            let p = field(fields@, "position"@);
            if f is Some && p is Some && json_as_bool(f.unwrap()) is Some && position_from_json(
                p.unwrap(),
            ) is Some {
                Some(WindowState {
                    fullscreen: json_as_bool(f.unwrap()).unwrap(),
                    position: position_from_json(p.unwrap()).unwrap(),
                })
            } else {
                None
            }
        },
        Json::Array(items) => {
            if items.len() == 2 && json_as_bool(items@[0]) is Some && position_from_json(items@[1])
                is Some {
                Some(WindowState {
                    fullscreen: json_as_bool(items@[0]).unwrap(),
                    position: position_from_json(items@[1]).unwrap(),
                })
            } else {
                None
            }
        },
        _ => None,
    }
}

/// The value of the first field named `key`.
pub(crate) fn field_exec<'a>(fields: &'a Vec<(String, Json)>, key: &str) -> (r: Option<&'a Json>)
    ensures
        r matches Some(v) ==> field(fields@, key@) == Some(*v),
        r is None ==> field(fields@, key@) is None,
{
    let k = chars_of(key);
    let mut i: usize = 0;
    assert(fields@.skip(0) =~= fields@);
    while i < fields.len()
        invariant
            i <= fields.len(),
            field(fields@, key@) == field(fields@.skip(i as int), key@),
            k@ == key@,
        decreases fields.len() - i,
    {
        let name = chars_of(fields[i].0.as_str());
        if same_chars(name.as_slice(), k.as_slice()) {
            return Some(&fields[i].1);
        }
        assert(fields@.skip(i as int).drop_first() =~= fields@.skip(i + 1));
        i = i + 1;
    }
    None
}

/// A position read from JSON.
pub fn position_from_json_exec(v: &Json) -> (r: Option<Position>)
    ensures
        r == position_from_json(*v),
{
    match v {
        Json::Object(fields) => {
            let l = field_exec(fields, "left");
            let t = field_exec(fields, "top");
            let r = field_exec(fields, "right");
            let b = field_exec(fields, "bottom");
            match (l, t, r, b) {
                (Some(l), Some(t), Some(r), Some(b)) => match (as_i32(l), as_i32(t), as_i32(r), as_i32(b)) {
                    (Some(l), Some(t), Some(r), Some(b)) => Some(Position { left: l, top: t, right: r, bottom: b }),
                    _ => None,
                },
                _ => None,
            }
        },
        Json::Array(items) => {
            if items.len() == 4 {
                match (as_i32(&items[0]), as_i32(&items[1]), as_i32(&items[2]), as_i32(&items[3])) {
                    (Some(l), Some(t), Some(r), Some(b)) => Some(Position { left: l, top: t, right: r, bottom: b }),
                    _ => None,
                }
            } else {
                None
            }
        },
        _ => None,
    }
}

/// A window state read from JSON.
pub fn window_state_from_json_exec(v: &Json) -> (r: Option<WindowState>)
    ensures
        r == window_state_from_json(*v),
{
    match v {
        Json::Object(fields) => {
            let f = field_exec(fields, "fullscreen");
            let p = field_exec(fields, "position");
            match (f, p) {
                (Some(f), Some(p)) => match (as_bool(f), position_from_json_exec(p)) {
                    (Some(f), Some(p)) => Some(WindowState { fullscreen: f, position: p }),
                    _ => None,
                },
                _ => None,
            }
        },
        Json::Array(items) => {
            if items.len() == 2 {
                match (as_bool(&items[0]), position_from_json_exec(&items[1])) {
                    (Some(f), Some(p)) => Some(WindowState { fullscreen: f, position: p }),
                    _ => None,
                }
            } else {
                None
            }
        },
        _ => None,
    }
}

/// A named JSON field.
fn named(name: &str, value: Json) -> (r: (String, Json))
    ensures
        r.0@ == name@,
        r.1 == value,
{
    let c = chars_of(name);
    (string_of(c.as_slice()), value)
}

/// An `i32` as a JSON number.
pub open spec fn i32_json(n: i32) -> Json {
    if n < 0 {
        Json::Number(JsonNumber::NegInt(n as i64))
    } else {
        Json::Number(JsonNumber::PosInt(n as u64))
    }
}

fn i32_json_exec(n: i32) -> (r: Json)
    ensures
        r == i32_json(n),
{
    if n < 0 {
        Json::Number(JsonNumber::NegInt(n as i64))
    } else {
        Json::Number(JsonNumber::PosInt(n as u64))
    }
}

/// A position as JSON, as its derived serialisation writes it: an object with the four
/// edges in declaration order.
pub open spec fn position_json_ok(p: Position, v: Json) -> bool {
    v matches Json::Object(fields) && fields.len() == 4 && fields@[0].0@ == "left"@
        && fields@[0].1 == i32_json(p.left) && fields@[1].0@ == "top"@ && fields@[1].1 == i32_json(
        p.top,
    ) && fields@[2].0@ == "right"@ && fields@[2].1 == i32_json(p.right) && fields@[3].0@
        == "bottom"@ && fields@[3].1 == i32_json(p.bottom)
}

/// The state a new main window starts from: the saved state, read back, when the start
/// mode is `Remember Previous`; none otherwise (the start mode then places the window).
pub fn start_state(start_mode: &str, saved: Option<&Json>) -> (r: Option<WindowState>)
    ensures
        start_mode@ == "Remember Previous"@ && saved is Some ==> r == window_state_from_json(
            *saved.unwrap(),
        ),
        !(start_mode@ == "Remember Previous"@ && saved is Some) ==> r is None,
{
    if str_is(start_mode, "Remember Previous") {
        match saved {
            Some(v) => window_state_from_json_exec(v),
            None => None,
        }
    } else {
        None
    }
}

/// A position as JSON.
pub fn position_to_json(p: Position) -> (r: Json)
    ensures
        position_json_ok(p, r),
{
    let mut fields: Vec<(String, Json)> = Vec::new();
    fields.push(named("left", i32_json_exec(p.left)));
    fields.push(named("top", i32_json_exec(p.top)));
    fields.push(named("right", i32_json_exec(p.right)));
    fields.push(named("bottom", i32_json_exec(p.bottom)));
    Json::Object(fields)
}

/// A window state as JSON, as its derived serialisation writes it: an object with
/// `fullscreen` and then `position`.
pub fn window_state_to_json(s: WindowState) -> (r: Json)
    ensures
        r matches Json::Object(fields) && fields.len() == 2 && fields@[0].0@ == "fullscreen"@
            && fields@[0].1 == Json::Bool(s.fullscreen) && fields@[1].0@ == "position"@
            && position_json_ok(s.position, fields@[1].1),
{
    let mut fields: Vec<(String, Json)> = Vec::new();
    fields.push(named("fullscreen", Json::Bool(s.fullscreen)));
    fields.push(named("position", position_to_json(s.position)));
    Json::Object(fields)
}

} // verus!
