//! The client's remaining decisions: command-line flags, the OBS plugin report, the lobby
//! host that is pinged, the messages posted to the page, process priority, and the DLL
//! injector's bookkeeping.
use vstd::prelude::*;
use vstd::utf8::{decode_utf8, valid_utf8};
use crate::text::{
    chars_of, contains, contains_exec, decimal, decimal_exec, extend_chars, split_exec, split_spec,
    starts_with, starts_with_exec, str_is, string_of, views,
};
use crate::wide::{create_utf_string, utf16, utf16_lossy};
use crate::json::{Json, json_display, json_text, json_value, parse_json};
use crate::window::{field, field_exec};

verus! {

broadcast use vstd::string::group_string_axioms;

/// What the plugin flags on the command line ask for: `Some(true)` to install the OBS
/// plugin, `Some(false)` to remove it (install wins when both are given), `None` for a
/// normal start.
pub open spec fn plugin_request(args: Seq<Seq<char>>) -> Option<bool> {
    let install = args.contains("--install-obs-plugin"@);
    let uninstall = args.contains("--uninstall-obs-plugin"@);
    if install || uninstall {
        Some(install)
    } else {
        None
    }
}

/// `lit` is one of `args`.
fn has_arg(args: &Vec<String>, lit: &str) -> (r: bool)
    ensures
        r == args@.map_values(|a: String| a@).contains(lit@),
{
    let ghost a = args@.map_values(|a: String| a@);
    let mut i: usize = 0;
    while i < args.len()
        invariant
            i <= args.len(),
            a == args@.map_values(|a: String| a@),
            forall|k: int| 0 <= k < i ==> a[k] != lit@,
        decreases args.len() - i,
    {
        if str_is(args[i].as_str(), lit) {
            assert(a[i as int] == lit@);
            return true;
        }
        i = i + 1;
    }
    false
}

/// What the plugin flags on the command line ask for (the program's own arguments).
pub fn obs_cli_request(args: &Vec<String>) -> (r: Option<bool>)
    ensures
        r == plugin_request(args@.map_values(|a: String| a@)),
{
    let install = has_arg(args, "--install-obs-plugin");
    let uninstall = has_arg(args, "--uninstall-obs-plugin");
    if install || uninstall {
        Some(install)
    } else {
        None
    }
}

/// How an OBS plugin operation ended.
pub enum PluginOutcome {
    /// It succeeded with this message.
    Done { message: String },
    /// The file system refused permission; `error` describes it.
    PermissionDenied { error: String },
    /// It failed otherwise; `error` describes it.
    Failed { error: String },
}

/// The page's report of a plugin operation, and whether the plugin setting is switched off.
pub struct PluginReport {
    pub ok: bool,
    pub message: String,
    pub disable_setting: bool,
}

/// The message of a failed operation.
pub open spec fn failure_message(error: Seq<char>) -> Seq<char> {
    "OBS plugin operation failed: "@ + error
}

/// The message when the operation was handed to an elevated copy of the client.
pub open spec fn elevation_message() -> Seq<char> {
    "Windows administrator permission requested for the OBS plugin operation"@
}

/// The page's report of a plugin operation: success with its message; after a permission
/// error, success with the elevation message when an elevated copy was started
/// (`elevated`), failure otherwise. The plugin setting is switched off after a failure or
/// when the message announces the elevation.
pub fn plugin_report(outcome: PluginOutcome, elevated: bool) -> (r: PluginReport)
    ensures
        outcome matches PluginOutcome::Done { message } ==> r.ok && r.message@ == message@,
        outcome matches PluginOutcome::PermissionDenied { error } ==> (if elevated {
            r.ok && r.message@ == elevation_message()
        } else {
            !r.ok && r.message@ == failure_message(error@)
        }),
        outcome matches PluginOutcome::Failed { error } ==> !r.ok && r.message@ == failure_message(
            error@,
        ),
        r.disable_setting == (!r.ok || starts_with(r.message@, "Windows administrator"@)),
{
    let (ok, message) = match outcome {
        PluginOutcome::Done { message } => (true, message),
        PluginOutcome::PermissionDenied { error } => if elevated {
            let m = chars_of("Windows administrator permission requested for the OBS plugin operation");
            (true, string_of(m.as_slice()))
        } else {
            let mut m = chars_of("OBS plugin operation failed: ");
            let e = chars_of(error.as_str());
            extend_chars(&mut m, e.as_slice());
            (false, string_of(m.as_slice()))
        },
        PluginOutcome::Failed { error } => {
            let mut m = chars_of("OBS plugin operation failed: ");
            let e = chars_of(error.as_str());
            extend_chars(&mut m, e.as_slice());
            (false, string_of(m.as_slice()))
        },
    };
    let text = chars_of(message.as_str());
    let prefix = chars_of("Windows administrator");
    let disable_setting = !ok || starts_with_exec(text.as_slice(), prefix.as_slice());
    PluginReport { ok, message, disable_setting }
}

/// The message after the plugin was copied to `dest`.
pub fn installed_message(dest: &str) -> (r: String)
    ensures
        r@ == "OBS plugin installed to "@ + dest@,
{
    let mut m = chars_of("OBS plugin installed to ");
    let d = chars_of(dest);
    extend_chars(&mut m, d.as_slice());
    string_of(m.as_slice())
}

/// The host of a lobby server: `url` is the JSON text of the address a web socket was
/// opened to; when it names a lobby, the host is what follows the last `://` up to the
/// next `/`.
pub open spec fn lobby_host_of(url: Seq<char>) -> Option<Seq<char>> {
    if contains(url, "lobby-"@) {
        let after = split_spec(url, "://"@).last();
        Some(split_spec(after, "/"@)[0])
    } else {
        None
    }
}

/// The host of a lobby server that a web socket was opened to.
pub fn lobby_host(url: &str) -> (r: Option<String>)
    ensures
        r matches Some(h) ==> lobby_host_of(url@) == Some(h@),
        r is None ==> lobby_host_of(url@) is None,
{
    let u = chars_of(url);
    let lobby = chars_of("lobby-");
    if !contains_exec(u.as_slice(), lobby.as_slice()) {
        return None;
    }
    proof {
        reveal_strlit("://");
        reveal_strlit("/");
    }
    let scheme = chars_of("://");
    let pieces = split_exec(u.as_slice(), scheme.as_slice());
    let last = &pieces[pieces.len() - 1];
    assert(views(pieces@).last() == last@);
    let slash = chars_of("/");
    let parts = split_exec(last.as_slice(), slash.as_slice());
    assert(views(parts@)[0] == parts@[0]@);
    Some(string_of(parts[0].as_slice()))
}

/// What a `Network.webSocketCreated` event tells the ping module.
pub enum LobbyEvent {
    /// The event's parameters are not a JSON object with a `url` member.
    Unreadable,
    /// The web socket does not lead to a lobby server.
    NotLobby,
    /// The web socket leads to the lobby server `host`.
    Lobby { host: String },
}

/// The lobby server that a web socket was opened to, from the DevTools event's parameters
/// (JSON text): the host in the compact JSON text of the parameters' `url` member, when it
/// names a lobby. Parameters that are not a JSON object with a `url` member are unreadable.
pub fn lobby_host_from_event(params: &str) -> (r: LobbyEvent)
    ensures
        match json_value(params@) {
            Some(Json::Object(fields)) => match field(fields@, "url"@) {
                Some(url) => match lobby_host_of(json_display(url)) {
                    Some(h) => r matches LobbyEvent::Lobby { host } && host@ == h,
                    None => r is NotLobby,
                },
                None => r is Unreadable,
            },
            _ => r is Unreadable,
        },
{
    let event = match parse_json(params) {
        Some(Json::Object(fields)) => fields,
        _ => return LobbyEvent::Unreadable,
    };
    let url = match field_exec(&event, "url") {
        Some(u) => json_text(u),
        None => return LobbyEvent::Unreadable,
    };
    match lobby_host(url.as_str()) {
        Some(host) => LobbyEvent::Lobby { host },
        None => LobbyEvent::NotLobby,
    }
}

/// The message that reports a ping time to the page.
pub fn ping_message(rtt: u32) -> (r: String)
    ensures
        r@ == "{\"pingInfo\":"@ + decimal(rtt as nat) + "}"@,
{
    let mut m = chars_of("{\"pingInfo\":");
    let d = decimal_exec(rtt as u64);
    extend_chars(&mut m, d.as_slice());
    let c = chars_of("}");
    extend_chars(&mut m, c.as_slice());
    string_of(m.as_slice())
}

/// `HIGH_PRIORITY_CLASS`.
pub const HIGH_PRIORITY_CLASS: u32 = 0x80;
/// `ABOVE_NORMAL_PRIORITY_CLASS`.
pub const ABOVE_NORMAL_PRIORITY_CLASS: u32 = 0x8000;
/// `BELOW_NORMAL_PRIORITY_CLASS`.
pub const BELOW_NORMAL_PRIORITY_CLASS: u32 = 0x4000;
/// `IDLE_PRIORITY_CLASS`.
pub const IDLE_PRIORITY_CLASS: u32 = 0x40;
/// `NORMAL_PRIORITY_CLASS`.
pub const NORMAL_PRIORITY_CLASS: u32 = 0x20;

/// The priority class of a priority setting; anything unknown is normal.
pub fn priority_class(level: &str) -> (r: u32)
    ensures
        r == (if level@ == "High"@ {
            HIGH_PRIORITY_CLASS
        } else if level@ == "Above Normal"@ {
            ABOVE_NORMAL_PRIORITY_CLASS
        } else if level@ == "Below Normal"@ {
            BELOW_NORMAL_PRIORITY_CLASS
        } else if level@ == "Idle"@ {
            IDLE_PRIORITY_CLASS
        } else {
            NORMAL_PRIORITY_CLASS
        }),
{
    if str_is(level, "High") {
        HIGH_PRIORITY_CLASS
    } else if str_is(level, "Above Normal") {
        ABOVE_NORMAL_PRIORITY_CLASS
    } else if str_is(level, "Below Normal") {
        BELOW_NORMAL_PRIORITY_CLASS
    } else if str_is(level, "Idle") {
        IDLE_PRIORITY_CLASS
    } else {
        NORMAL_PRIORITY_CLASS
    }
}

/// Injects a DLL into a process by its path.
pub struct DllInjector {
    dll_path: String,
    pid: u32,
}

impl DllInjector {
    /// The DLL's path.
    pub closed spec fn path(&self) -> Seq<char> {
        self.dll_path@
    }

    /// The target process.
    pub closed spec fn target(&self) -> u32 {
        self.pid
    }

    /// An injector of the DLL at `dll_path` into process `pid`.
    pub fn new(dll_path: &str, pid: u32) -> (r: DllInjector)
        ensures
            r.path() == dll_path@,
            r.target() == pid,
    {
        let c = chars_of(dll_path);
        DllInjector { dll_path: string_of(c.as_slice()), pid }
    }

    /// The target process.
    pub fn pid(&self) -> (r: u32)
        ensures
            r == self.target(),
    {
        self.pid
    }

    /// The DLL path as the target process's loader reads it: UTF-16 with a terminating zero.
    pub fn wide_path(&self) -> (r: Vec<u16>)
        ensures
            r@ == utf16(self.path()).push(0),
    {
        create_utf_string(self.dll_path.as_str())
    }

    /// The number of bytes the wide path takes in the target process.
    pub fn wide_path_bytes(&self) -> (r: usize)
        requires
            2 * (utf16(self.path()).len() + 1) <= usize::MAX,
        ensures
            r == 2 * (utf16(self.path()).len() + 1),
    {
        let w = self.wide_path();
        w.len() * 2
    }
}

/// After a failed injection the injector gives up (and closes the browser) when one error
/// was already counted in the process; otherwise it retries.
pub open spec fn gives_up(errors_before: u32) -> bool {
    errors_before >= 1
}

/// After a failed injection the injector gives up (and closes the browser) when one error
/// was already counted; otherwise it retries.
pub fn injection_gives_up(errors_before: u32) -> (r: bool)
    ensures
        r == gives_up(errors_before),
{
    errors_before >= 1
}

/// Decodes UTF-16, replacing invalid code units (`String::from_utf16_lossy`).
#[verifier::external_body]
fn decode_utf16_lossy(units: &[u16]) -> (r: String)
    ensures
        r@ == utf16_lossy(units@),
{
    String::from_utf16_lossy(units)
}

/// The lower case of a string by Unicode's rules (`str::to_lowercase`). The result depends
/// on the string alone.
pub uninterp spec fn unicode_lowercase(s: Seq<char>) -> Seq<char>;

/// The lower case of a string (`str::to_lowercase`).
#[verifier::external_body]
fn to_lowercase(s: &str) -> (r: String)
    ensures
        r@ == unicode_lowercase(s@),
{
    s.to_lowercase()
}

/// A module of a process is the named DLL: the decoded module name buffer contains `name`.
pub fn module_is(module_name: &[u16], name: &str) -> (r: bool)
    ensures
        r == contains(utf16_lossy(module_name@), name@),
{
    let decoded = decode_utf16_lossy(module_name);
    let d = chars_of(decoded.as_str());
    let n = chars_of(name);
    contains_exec(d.as_slice(), n.as_slice())
}

/// A process is a WebView2 browser process: the lower case of its decoded executable name
/// buffer contains `msedgewebview2.exe`.
pub fn is_webview_browser(exe_name: &[u16]) -> (r: bool)
    ensures
        r == contains(unicode_lowercase(utf16_lossy(exe_name@)), "msedgewebview2.exe"@),
{
    let decoded = decode_utf16_lossy(exe_name);
    let lower = to_lowercase(decoded.as_str());
    let d = chars_of(lower.as_str());
    let n = chars_of("msedgewebview2.exe");
    contains_exec(d.as_slice(), n.as_slice())
}

/// The characters that JSON writes for one character of a string: quotes and backslashes
/// escaped, the control characters with short escapes as such, the others as `\u00XX` with
/// lower-case hex digits, and everything else as is.
pub open spec fn json_escape(c: char) -> Seq<char> {
    let u = c as u32;
    if c == '"' {
        seq!['\\', '"']
    } else if c == '\\' {
        seq!['\\', '\\']
    } else if u == 0x08 {
        seq!['\\', 'b']
    } else if u == 0x09 {
        seq!['\\', 't']
    } else if u == 0x0a {
        seq!['\\', 'n']
    } else if u == 0x0c {
        seq!['\\', 'f']
    } else if u == 0x0d {
        seq!['\\', 'r']
    } else if u < 0x20 {
        seq!['\\', 'u', '0', '0', hex_digit(u / 16), hex_digit(u % 16)]
    } else {
        seq![c]
    }
}

/// A lower-case hex digit.
pub open spec fn hex_digit(d: u32) -> char {
    if d < 10 {
        ((d + 48) as u8) as char
    } else {
        ((d + 87) as u8) as char
    }
}

/// The escaped characters of a string.
pub open spec fn json_escaped(s: Seq<char>) -> Seq<char>
    decreases s.len(),
{
    if s.len() == 0 {
        Seq::empty()
    } else {
        json_escaped(s.drop_last()) + json_escape(s.last())
    }
}

/// A string as a JSON string literal.
pub open spec fn json_quoted(s: Seq<char>) -> Seq<char> {
    seq!['"'] + json_escaped(s) + seq!['"']
}

/// Writes a string as a JSON string literal (`serde_json::to_string`); writing a string
/// into memory does not fail.
#[verifier::external_body]
fn json_quote(s: &str) -> (r: Option<String>)
    ensures
        r is Some,
        r.unwrap()@ == json_quoted(s@),
{
    serde_json::to_string(s).ok()
}

/// Decodes UTF-8 (`String::from_utf8`), `None` when the bytes are not valid UTF-8.
#[verifier::external_body]
fn utf8_string(bytes: &[u8]) -> (r: Option<String>)
    ensures
        r is Some <==> valid_utf8(bytes@),
        r matches Some(s) ==> s@ == decode_utf8(bytes@),
{
    String::from_utf8(bytes.to_vec()).ok()
}

/// The script that hands the arguments of a second launch to the main window's page:
/// the arguments (UTF-8) as a JSON string; `None` when they are not UTF-8.
pub fn main_window_args_script(data: &[u8]) -> (r: Option<String>)
    ensures
        !valid_utf8(data@) ==> r is None,
        valid_utf8(data@) ==> (r matches Some(s) && s@ == "window.glorpClient.parseArgs("@
            + json_quoted(decode_utf8(data@)) + ")"@),
{
    let text = match utf8_string(data) {
        Some(t) => t,
        None => return None,
    };
    let quoted = match json_quote(text.as_str()) {
        Some(q) => q,
        None => String::new(),
    };
    let mut m = chars_of("window.glorpClient.parseArgs(");
    let q = chars_of(quoted.as_str());
    extend_chars(&mut m, q.as_slice());
    let c = chars_of(")");
    extend_chars(&mut m, c.as_slice());
    Some(string_of(m.as_slice()))
}

/// The script that hands the arguments of a second launch to a new main window opened from
/// a sub-window: the arguments (UTF-8) placed between single quotes as they are; `None`
/// when they are not UTF-8.
pub fn subwindow_args_script(data: &[u8]) -> (r: Option<String>)
    ensures
        !valid_utf8(data@) ==> r is None,
        valid_utf8(data@) ==> (r matches Some(s) && s@ == "window.glorpClient.parseArgs('"@
            + decode_utf8(data@) + "')"@),
{
    let text = match utf8_string(data) {
        Some(t) => t,
        None => return None,
    };
    let mut m = chars_of("window.glorpClient.parseArgs('");
    let t = chars_of(text.as_str());
    extend_chars(&mut m, t.as_slice());
    let c = chars_of("')");
    extend_chars(&mut m, c.as_slice());
    Some(string_of(m.as_slice()))
}

/// The launch arguments that the page is told about: joined with spaces, and only when there
/// are any.
pub fn launch_args_info(args: &Vec<String>) -> (r: Option<String>)
    ensures
        args.len() == 0 ==> r is None,
        args.len() > 0 ==> (r matches Some(t) && t@ == crate::lists::joined(crate::lists::texts(args@))),
{
    if args.len() == 0 {
        None
    } else {
        Some(crate::lists::join_with_spaces(args))
    }
}

/// After the browser failed to start, the client starts itself again with the `crash`
/// argument, unless it already runs with it.
pub fn relaunch_after_crash(args: &Vec<String>) -> (r: bool)
    ensures
        r == !args@.map_values(|a: String| a@).contains("crash"@),
{
    !has_arg(args, "crash")
}

/// The ASCII lower case of a character.
pub open spec fn ascii_lower(c: char) -> char {
    if 'A' <= c && c <= 'Z' {
        ((c as u32) + 32) as char
    } else {
        c
    }
}

/// Two texts are equal ignoring ASCII case (`eq_ignore_ascii_case`).
pub open spec fn eq_ignore_ascii_case(a: Seq<char>, b: Seq<char>) -> bool {
    a.len() == b.len() && forall|i: int| 0 <= i < a.len() ==> ascii_lower(#[trigger] a[i]) == ascii_lower(b[i])
}

/// A file extension is `wanted`, ignoring ASCII case (how script and installer files are
/// recognised).
pub fn extension_is(ext: &str, wanted: &str) -> (r: bool)
    ensures
        r == eq_ignore_ascii_case(ext@, wanted@),
{
    let a = chars_of(ext);
    let b = chars_of(wanted);
    if a.len() != b.len() {
        return false;
    }
    let mut i: usize = 0;
    while i < a.len()
        invariant
            a.len() == b.len(),
            a@ == ext@,
            b@ == wanted@,
            i <= a.len(),
            forall|k: int| 0 <= k < i ==> ascii_lower(#[trigger] a@[k]) == ascii_lower(b@[k]),
        decreases a.len() - i,
    {
        let x = a[i];
        let y = b[i];
        let lx = if 'A' <= x && x <= 'Z' { ((x as u32) + 32) as u8 as char } else { x };
        let ly = if 'A' <= y && y <= 'Z' { ((y as u32) + 32) as u8 as char } else { y };
        assert(lx == ascii_lower(a@[i as int]));
        assert(ly == ascii_lower(b@[i as int]));
        if lx != ly {
            assert(!(ascii_lower(a@[i as int]) == ascii_lower(b@[i as int])));
            assert(!eq_ignore_ascii_case(a@, b@));
            return false;
        }
        i = i + 1;
    }
    true
}

} // verus!
