//! The messages that the game page posts to the client: `"command, arg, arg"` text that the
//! client splits at `", "`, trims, and turns into one action.
use vstd::prelude::*;
use crate::text::{
    chars_of, extend_chars, parse_bool, parse_bool_spec, parse_i64, parse_i64_spec, parse_u64,
    parse_u64_spec, same_chars, split_exec, split_spec, str_is, string_of, trim, trim_exec, views,
};
use crate::json::{Json, JsonNumber, number_from_i64, number_from_i64_exec};

verus! {

broadcast use vstd::string::group_string_axioms;

/// What the client does for one page message.
pub enum WebCommand {
    /// Store `value` (still as text) under `setting`; `fps_limit` is the new render frame
    /// limit when the setting is `renderFpsLimit` and the value reads as a `u64`.
    SetConfig { setting: String, value: String, fps_limit: Option<u64> },
    /// Install (`true`) or remove the OBS capture plugin.
    ObsPlugin { install: bool },
    /// Send the settings, version and launch arguments to the page.
    GetInfo,
    /// Tell the render widget the drag state, by the message parameter it expects.
    Drag { wparam: usize },
    /// Apply the CPU throttling rate stored under `setting`.
    Throttle { setting: String },
    /// Quit the client.
    Close,
    /// Clear the browser cache and site data, then reload.
    ClearCache,
    /// Open a folder or file of the settings directory in Explorer.
    Open { target: String },
    /// Set the Discord activity state.
    RpcUpdate { state: String },
    /// Switch the scroll-wheel ramp boost of the render widget, by the message parameter it
    /// expects.
    ToggleRampBoost { wparam: usize },
    /// Measure and report the ping to the lobby server.
    Ping,
    /// Anything else: nothing happens.
    Ignore,
}

/// A page message command, by the characters of its text fields.
pub ghost enum WebCommandView {
    SetConfig { setting: Seq<char>, value: Seq<char>, fps_limit: Option<u64> },
    ObsPlugin { install: bool },
    GetInfo,
    Drag { wparam: usize },
    Throttle { setting: Seq<char> },
    Close,
    ClearCache,
    Open { target: Seq<char> },
    RpcUpdate { state: Seq<char> },
    ToggleRampBoost { wparam: usize },
    Ping,
    Ignore,
}

impl View for WebCommand {
    type V = WebCommandView;

    open spec fn view(&self) -> WebCommandView {
        match self {
            WebCommand::SetConfig { setting, value, fps_limit } => WebCommandView::SetConfig {
                setting: setting@,
                value: value@,
                fps_limit: *fps_limit,
            },
            WebCommand::ObsPlugin { install } => WebCommandView::ObsPlugin { install: *install },
            WebCommand::GetInfo => WebCommandView::GetInfo,
            WebCommand::Drag { wparam } => WebCommandView::Drag { wparam: *wparam },
            WebCommand::Throttle { setting } => WebCommandView::Throttle { setting: setting@ },
            WebCommand::Close => WebCommandView::Close,
            WebCommand::ClearCache => WebCommandView::ClearCache,
            WebCommand::Open { target } => WebCommandView::Open { target: target@ },
            WebCommand::RpcUpdate { state } => WebCommandView::RpcUpdate { state: state@ },
            WebCommand::ToggleRampBoost { wparam } => WebCommandView::ToggleRampBoost {
                wparam: *wparam,
            },
            WebCommand::Ping => WebCommandView::Ping,
            WebCommand::Ignore => WebCommandView::Ignore,
        }
    }
}

/// The trimmed pieces of a message.
pub open spec fn message_parts(msg: Seq<char>) -> Seq<Seq<char>> {
    split_spec(msg, ", "@).map_values(|p: Seq<char>| trim(p))
}

/// A text read as a boolean, `false` when it is not one.
pub open spec fn flag(s: Seq<char>) -> bool {
    match parse_bool_spec(s) {
        Some(b) => b,
        None => false,
    }
}

/// The command that a message's pieces stand for.
pub open spec fn web_command_of(parts: Seq<Seq<char>>) -> WebCommandView {
    if parts.len() == 3 && parts[0] == "set-config"@ {
        WebCommandView::SetConfig {
            setting: parts[1],
            value: parts[2],
            fps_limit: if parts[1] == "renderFpsLimit"@ {
                parse_u64_spec(parts[2])
            } else {
                None
            },
        }
    } else if parts.len() == 2 && parts[0] == "obs-plugin"@ {
        WebCommandView::ObsPlugin { install: flag(parts[1]) }
    } else if parts.len() == 1 && parts[0] == "get-info"@ {
        WebCommandView::GetInfo
    } else if parts.len() == 2 && parts[0] == "drag"@ {
        WebCommandView::Drag {
            wparam: if flag(parts[1]) {
                0
            } else {
                2
            },
        }
    } else if parts.len() == 2 && parts[0] == "throttle"@ {
        WebCommandView::Throttle {
            setting: if parts[1] == "game"@ {
                "throttle"@
            } else {
                "inMenuThrottle"@
            },
        }
    } else if parts.len() == 1 && parts[0] == "close"@ {
        WebCommandView::Close
    } else if parts.len() == 1 && parts[0] == "clear-cache"@ {
        WebCommandView::ClearCache
    } else if parts.len() == 2 && parts[0] == "open"@ {
        WebCommandView::Open { target: parts[1] }
    } else if parts.len() == 3 && parts[0] == "rpc-update"@ {
        WebCommandView::RpcUpdate { state: parts[1] + " on "@ + parts[2] }
    } else if parts.len() == 2 && parts[0] == "toggle-rboost"@ {
        WebCommandView::ToggleRampBoost {
            wparam: if flag(parts[1]) {
                1
            } else {
                3
            },
        }
    } else if parts.len() == 1 && parts[0] == "ping"@ {
        WebCommandView::Ping
    } else {
        WebCommandView::Ignore
    }
}

/// The text is the literal `lit`.
fn is_lit(s: &Vec<char>, lit: &str) -> (r: bool)
    ensures
        r == (s@ == lit@),
{
    let l = chars_of(lit);
    same_chars(s.as_slice(), l.as_slice())
}

/// A text read as a boolean, `false` when it is not one.
fn flag_exec(s: &Vec<char>) -> (r: bool)
    ensures
        r == flag(s@),
{
    match parse_bool(s.as_slice()) {
        Some(b) => b,
        None => false,
    }
}

/// The string of a literal.
fn lit_string(lit: &str) -> (r: String)
    ensures
        r@ == lit@,
{
    let c = chars_of(lit);
    string_of(c.as_slice())
}

/// Splits a page message at `", "`, trims the pieces, and decides what the client does.
pub fn parse_web_message(message: &str) -> (r: WebCommand)
    ensures
        r@ == web_command_of(message_parts(message@)),
{
    let msg = chars_of(message);
    let sep = chars_of(", ");
    proof {
        reveal_strlit(", ");
    }
    let raw = split_exec(msg.as_slice(), sep.as_slice());
    let mut parts: Vec<Vec<char>> = Vec::new();
    let mut i: usize = 0;
    while i < raw.len()
        invariant
            i <= raw.len(),
            views(raw@) == split_spec(msg@, sep@),
            views(parts@) == views(raw@).take(i as int).map_values(|p: Seq<char>| trim(p)),
        decreases raw.len() - i,
    {
        let t = trim_exec(raw[i].as_slice());
        let ghost before = parts@;
        parts.push(t);
        assert(views(raw@)[i as int] == raw@[i as int]@);
        assert(views(parts@) =~= views(before).push(t@));
        assert(views(raw@).take(i + 1) =~= views(raw@).take(i as int).push(views(raw@)[i as int]));
        assert(views(parts@) =~= views(raw@).take(i + 1).map_values(|p: Seq<char>| trim(p)));
        i = i + 1;
    }
    assert(views(raw@).take(raw.len() as int) =~= views(raw@));
    let ghost ps = message_parts(message@);
    assert(views(parts@) =~= ps);
    assert(forall|k: int| 0 <= k < parts.len() ==> parts@[k]@ == ps[k]);
    let n = parts.len();
    if n == 3 && is_lit(&parts[0], "set-config") {
        let fps_limit = if is_lit(&parts[1], "renderFpsLimit") {
            parse_u64(parts[2].as_slice())
        } else {
            None
        };
        return WebCommand::SetConfig {
            setting: string_of(parts[1].as_slice()),
            value: string_of(parts[2].as_slice()),
            fps_limit,
        };
    }
    if n == 2 && is_lit(&parts[0], "obs-plugin") {
        return WebCommand::ObsPlugin { install: flag_exec(&parts[1]) };
    }
    if n == 1 && is_lit(&parts[0], "get-info") {
        return WebCommand::GetInfo;
    }
    if n == 2 && is_lit(&parts[0], "drag") {
        return WebCommand::Drag {
            wparam: if flag_exec(&parts[1]) {
                0
            } else {
                2
            },
        };
    }
    if n == 2 && is_lit(&parts[0], "throttle") {
        let setting = if is_lit(&parts[1], "game") {
            lit_string("throttle")
        } else {
            lit_string("inMenuThrottle")
        };
        return WebCommand::Throttle { setting };
    }
    if n == 1 && is_lit(&parts[0], "close") {
        return WebCommand::Close;
    }
    if n == 1 && is_lit(&parts[0], "clear-cache") {
        return WebCommand::ClearCache;
    }
    if n == 2 && is_lit(&parts[0], "open") {
        return WebCommand::Open { target: string_of(parts[1].as_slice()) };
    }
    if n == 3 && is_lit(&parts[0], "rpc-update") {
        let mut state = parts[1].clone();
        let on = chars_of(" on ");
        extend_chars(&mut state, on.as_slice());
        extend_chars(&mut state, parts[2].as_slice());
        return WebCommand::RpcUpdate { state: string_of(state.as_slice()) };
    }
    if n == 2 && is_lit(&parts[0], "toggle-rboost") {
        return WebCommand::ToggleRampBoost {
            wparam: if flag_exec(&parts[1]) {
                1
            } else {
                3
            },
        };
    }
    if n == 1 && is_lit(&parts[0], "ping") {
        return WebCommand::Ping;
    }
    WebCommand::Ignore
}

/// The JSON value that a settings message's text becomes: `true`/`false` as a boolean,
/// else an `i64` as an integer, else, when the text reads as a floating-point number
/// (which the caller has turned into the JSON text `float_text` of that number rounded
/// to two decimals), that number, else the text itself as a string.
pub fn parse_web_message_value(value: &str, float_text: Option<String>) -> (r: Json)
    ensures
        parse_bool_spec(value@) matches Some(b) ==> r == Json::Bool(b),
        parse_bool_spec(value@) is None && parse_i64_spec(value@) is Some ==> r == Json::Number(
            number_from_i64(parse_i64_spec(value@).unwrap()),
        ),
        parse_bool_spec(value@) is None && parse_i64_spec(value@) is None && float_text
            is Some ==> r == Json::Number(JsonNumber::Float(float_text.unwrap())),
        parse_bool_spec(value@) is None && parse_i64_spec(value@) is None && float_text
            is None ==> (r matches Json::Str(s) && s@ == value@),
{
    let v = chars_of(value);
    match parse_bool(v.as_slice()) {
        Some(b) => Json::Bool(b),
        None => match parse_i64(v.as_slice()) {
            Some(n) => Json::Number(number_from_i64_exec(n)),
            None => match float_text {
                Some(t) => Json::Number(JsonNumber::Float(t)),
                None => Json::Str(string_of(v.as_slice())),
            },
        },
    }
}

/// The entry of the settings directory that an `open` message names: the user blocklist
/// file, the swapper folder, or the scripts folder.
pub fn documents_subpath(target: &str) -> (r: Option<String>)
    ensures
        target@ == "blocklist"@ ==> (r matches Some(p) && p@ == "user_blocklist.json"@),
        target@ == "swapper"@ ==> (r matches Some(p) && p@ == "swapper"@),
        target@ == "userscripts"@ ==> (r matches Some(p) && p@ == "scripts"@),
        target@ != "blocklist"@ && target@ != "swapper"@ && target@ != "userscripts"@ ==> r
            is None,
{
    proof {
        reveal_strlit("blocklist");
        reveal_strlit("swapper");
        reveal_strlit("userscripts");
    }
    if str_is(target, "blocklist") {
        Some(lit_string("user_blocklist.json"))
    } else if str_is(target, "swapper") {
        Some(lit_string("swapper"))
    } else if str_is(target, "userscripts") {
        Some(lit_string("scripts"))
    } else {
        None
    }
}

} // verus!
