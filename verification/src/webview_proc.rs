//! The message filtering that the injected webview module puts in front of Chrome's windows:
//! the top-level Chrome window and the render widget, with its drag state and its
//! scroll-wheel ramp boost.
use vstd::prelude::*;

verus! {

/// `WM_QUIT`.
pub const WM_QUIT: u32 = 0x0012;
/// `WM_NCXBUTTONDBLCLK`.
pub const WM_NCXBUTTONDBLCLK: u32 = 0x00ad;
/// `WM_INPUT`.
pub const WM_INPUT: u32 = 0x00ff;
/// `WM_KEYDOWN`.
pub const WM_KEYDOWN: u32 = 0x0100;
/// `WM_KEYUP`.
pub const WM_KEYUP: u32 = 0x0101;
/// `WM_CHAR`.
pub const WM_CHAR: u32 = 0x0102;
/// `WM_MOUSEMOVE`.
pub const WM_MOUSEMOVE: u32 = 0x0200;
/// `WM_LBUTTONDOWN`.
pub const WM_LBUTTONDOWN: u32 = 0x0201;
/// `WM_LBUTTONDBLCLK`.
pub const WM_LBUTTONDBLCLK: u32 = 0x0203;
/// `WM_RBUTTONDOWN`.
pub const WM_RBUTTONDOWN: u32 = 0x0204;
/// `WM_RBUTTONDBLCLK`.
pub const WM_RBUTTONDBLCLK: u32 = 0x0206;
/// `WM_MBUTTONDOWN`.
pub const WM_MBUTTONDOWN: u32 = 0x0207;
/// `WM_MBUTTONDBLCLK`.
pub const WM_MBUTTONDBLCLK: u32 = 0x0209;
/// `WM_MOUSEWHEEL`.
pub const WM_MOUSEWHEEL: u32 = 0x020a;
/// `WM_XBUTTONDOWN`.
pub const WM_XBUTTONDOWN: u32 = 0x020b;
/// `WM_MOUSEHWHEEL`.
pub const WM_MOUSEHWHEEL: u32 = 0x020e;
/// `WM_POINTERWHEEL`.
pub const WM_POINTERWHEEL: u32 = 0x024e;
/// `WM_POINTERHWHEEL`.
pub const WM_POINTERHWHEEL: u32 = 0x024f;
/// `WM_USER`.
pub const WM_USER: u32 = 0x0400;
/// `VK_ESCAPE`.
pub const VK_ESCAPE: usize = 0x1b;
/// `MK_LBUTTON`.
pub const MK_LBUTTON: usize = 0x1;

/// What the top-level Chrome window's filter does with a message.
#[derive(Clone, Copy, Debug, PartialEq, Eq, Structural)]
pub enum ChromeAction {
    /// Consume the message (answer 1).
    Swallow,
    /// Pass the message on with this parameter.
    Pass { wparam: usize },
    /// Give the focus to the client window, then pass the message on unchanged.
    FocusClientThenPass,
    /// Remove the hooks, then pass the message on unchanged.
    DetachThenPass,
    /// Read the raw input: consume it when it reports a mouse button, pass it on otherwise.
    InspectRawInput,
}

/// A mouse button press or double click.
pub open spec fn is_button_press(msg: u32) -> bool {
    msg == WM_LBUTTONDOWN || msg == WM_LBUTTONDBLCLK || msg == WM_RBUTTONDOWN || msg
        == WM_RBUTTONDBLCLK || msg == WM_XBUTTONDOWN || msg == WM_NCXBUTTONDBLCLK || msg
        == WM_MBUTTONDOWN || msg == WM_MBUTTONDBLCLK
}

/// What the top-level Chrome window's filter does with a message: typed characters are
/// dropped, Escape gives the focus back to the client while dragging, button presses (and
/// moves while dragging) are passed on without the left-button bit, and raw input is
/// inspected.
pub open spec fn chrome_action(msg: u32, wparam: usize, drag: bool) -> ChromeAction {
    if msg == WM_CHAR {
        ChromeAction::Swallow
    } else if msg == WM_QUIT {
        ChromeAction::DetachThenPass
    } else if msg == WM_KEYDOWN || msg == WM_KEYUP {
        if wparam == VK_ESCAPE && drag {
            ChromeAction::FocusClientThenPass
        } else {
            ChromeAction::Pass { wparam }
        }
    } else if is_button_press(msg) {
        ChromeAction::Pass { wparam: wparam & !MK_LBUTTON }
    } else if msg == WM_MOUSEMOVE {
        if drag {
            ChromeAction::Pass { wparam: wparam & !MK_LBUTTON }
        } else {
            ChromeAction::Pass { wparam }
        }
    } else if msg == WM_INPUT {
        ChromeAction::InspectRawInput
    } else {
        ChromeAction::Pass { wparam }
    }
}

/// What the top-level Chrome window's filter does with a message.
pub fn chrome_window_action(msg: u32, wparam: usize, drag: bool) -> (r: ChromeAction)
    ensures
        r == chrome_action(msg, wparam, drag),
{
    if msg == WM_CHAR {
        ChromeAction::Swallow
    } else if msg == WM_QUIT {
        ChromeAction::DetachThenPass
    } else if msg == WM_KEYDOWN || msg == WM_KEYUP {
        if wparam == VK_ESCAPE && drag {
            ChromeAction::FocusClientThenPass
        } else {
            ChromeAction::Pass { wparam }
        }
    } else if msg == WM_LBUTTONDOWN || msg == WM_LBUTTONDBLCLK || msg == WM_RBUTTONDOWN || msg
        == WM_RBUTTONDBLCLK || msg == WM_XBUTTONDOWN || msg == WM_NCXBUTTONDBLCLK || msg
        == WM_MBUTTONDOWN || msg == WM_MBUTTONDBLCLK {
        ChromeAction::Pass { wparam: wparam & !MK_LBUTTON }
    } else if msg == WM_MOUSEMOVE {
        if drag {
            ChromeAction::Pass { wparam: wparam & !MK_LBUTTON }
        } else {
            ChromeAction::Pass { wparam }
        }
    } else if msg == WM_INPUT {
        ChromeAction::InspectRawInput
    } else {
        ChromeAction::Pass { wparam }
    }
}

/// Raw input is consumed when it could be read and reports a mouse button change.
pub fn swallow_raw_input(read_ok: bool, button_flags: u16) -> (r: bool)
    ensures
        r == (read_ok && button_flags != 0),
{
    read_ok && button_flags != 0
}

/// Which procedure filters the render widget's messages.
#[derive(Clone, Copy, Debug, PartialEq, Eq, Structural)]
pub enum WidgetMode {
    /// Scrolling while dragging goes to the client window.
    Normal,
    /// Scrolling while dragging presses the space bar.
    RampBoost,
}

/// What the render widget's filter does with a message.
#[derive(Clone, Copy, Debug, PartialEq, Eq, Structural)]
pub enum WidgetAction {
    /// Consume the message (answer 1).
    Swallow,
    /// Consume the message and post it to the client window.
    ForwardToClient,
    /// Consume the message and press the space bar.
    PressSpace,
    /// Pass the message on.
    Pass,
}

/// A scroll-wheel message.
pub open spec fn is_wheel(msg: u32) -> bool {
    msg == WM_MOUSEWHEEL || msg == WM_MOUSEHWHEEL || msg == WM_POINTERWHEEL || msg
        == WM_POINTERHWHEEL
}

/// The render widget's filter: `WM_USER` with 1 switches to ramp boost and with 3 back to
/// normal (each only from the other mode); any other `WM_USER` sets the drag state to
/// whether its parameter is 2. Scrolling while dragging is taken away from the page.
/// The result is the new mode, the new drag state and the action.
pub open spec fn widget_step(mode: WidgetMode, drag: bool, msg: u32, wparam: usize) -> (
    WidgetMode,
    bool,
    WidgetAction,
) {
    if msg == WM_USER {
        match mode {
            WidgetMode::Normal => if wparam == 1 {
                (WidgetMode::RampBoost, drag, WidgetAction::Swallow)
            } else {
                (WidgetMode::Normal, wparam == 2, WidgetAction::Swallow)
            },
            WidgetMode::RampBoost => if wparam == 3 {
                (WidgetMode::Normal, drag, WidgetAction::Swallow)
            } else {
                (WidgetMode::RampBoost, wparam == 2, WidgetAction::Swallow)
            },
        }
    } else if is_wheel(msg) && drag {
        match mode {
            WidgetMode::Normal => (mode, drag, WidgetAction::ForwardToClient),
            WidgetMode::RampBoost => (mode, drag, WidgetAction::PressSpace),
        }
    } else {
        (mode, drag, WidgetAction::Pass)
    }
}

/// The render widget's filter.
pub fn widget_message(mode: WidgetMode, drag: bool, msg: u32, wparam: usize) -> (r: (
    WidgetMode,
    bool,
    WidgetAction,
))
    ensures
        r == widget_step(mode, drag, msg, wparam),
{
    let wheel = msg == WM_MOUSEWHEEL || msg == WM_MOUSEHWHEEL || msg == WM_POINTERWHEEL || msg
        == WM_POINTERHWHEEL;
    if msg == WM_USER {
        match mode {
            WidgetMode::Normal => if wparam == 1 {
                (WidgetMode::RampBoost, drag, WidgetAction::Swallow)
            } else {
                (WidgetMode::Normal, wparam == 2, WidgetAction::Swallow)
            },
            WidgetMode::RampBoost => if wparam == 3 {
                (WidgetMode::Normal, drag, WidgetAction::Swallow)
            } else {
                (WidgetMode::RampBoost, wparam == 2, WidgetAction::Swallow)
            },
        }
    } else if wheel && drag {
        match mode {
            WidgetMode::Normal => (mode, drag, WidgetAction::ForwardToClient),
            WidgetMode::RampBoost => (mode, drag, WidgetAction::PressSpace),
        }
    } else {
        (mode, drag, WidgetAction::Pass)
    }
}

} // verus!
