# glorp

The decision-making core of the glorp Krunker client, written in Verus and verified:
every public function states what it returns in its contract, and Verus proves the
code against it.

## Layout

- `src/` – the verified library (`glorp`):
  - `text`, `wide`, `json` – characters, UTF-16 buffers and the JSON model the rest
    builds on;
  - `config` – the settings store, its defaults and reading it back;
  - `web_message` – the page's `"command, arg, arg"` messages and what each one does;
  - `window` – window placement, fullscreen toggling, key shortcuts and the saved
    window state;
  - `resources`, `lists`, `userscript` – request routing for the resource swapper and
    blocklist, the user's flag and block lists, and user-script wrapping;
  - `update` – script-bundle and release update decisions over semantic versions;
  - `render`, `capture`, `webview_proc` – the frame limiter and statistics, the shared
    capture control block, and the message filters of the browser's windows;
  - `client` – the OBS plugin flow, ping and lobby hosts, process priority, the DLL
    injector's bookkeeping and launch arguments;
  - `laws` – properties that span several functions, proved once for all inputs.
- `tests/` – the library's tests, run against the real `serde_json`, `regex` and
  `semver` crates that the trusted wrappers call.
- `app/` – the Windows program around the library: WebView2 windows and handlers,
  files, downloads, Discord presence.
