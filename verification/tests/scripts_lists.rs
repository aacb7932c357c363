use glorp::lists::{
    blocklist_regexes, blocklist_urls, browser_arguments, default_list, final_list, flag_arguments, join_with_spaces,
    wildcard_pattern,
};
use glorp::userscript::prepare_script;
use regex::Regex;

fn strings(v: &[&str]) -> Vec<String> {
    v.iter().map(|s| s.to_string()).collect()
}

/// The preparation as the regular expressions describe it.
fn by_regex(content: &str) -> String {
    let meta = Regex::new(r#"(?s)\A\s*\/\/ ==UserScript==.*?\/\/ ==\/UserScript=="#).unwrap();
    let iife = Regex::new(r#"(?s)^\s*(?:['\"]use strict['\"];?\s*)?\(.*\)\s*\(\s*\)\s*;?\s*$"#).unwrap();
    let mut content = content.to_string();
    if let Some(m) = meta.find(&content) {
        if !m.as_str().contains("// @run-at document-start") {
            content = format!("document.addEventListener('DOMContentLoaded', function() {{\n{}\n}});", content);
        }
    }
    if iife.is_match(&content) {
        return content;
    }
    format!("(function() {{\n{}\n}})();", content)
}

#[test]
fn scripts_are_wrapped_like_the_patterns_say() {
    let cases = [
        "console.log(1)",
        "(function(){ go() })()",
        "  'use strict';\n (() => x)( );  \n",
        "\"use strict\"(f)()",
        "'use strict' ;(f)()",
        "(a)(b)",
        "()()",
        "(()",
        "// ==UserScript==\n// @name x\n// ==/UserScript==\nrun()",
        "// ==UserScript==\n// @run-at document-start\n// ==/UserScript==\nrun()",
        "  \n// ==UserScript==\n// ==/UserScript==\n// @run-at document-start\n(go)()",
        "// ==UserScript== never closed",
        "x // ==UserScript==\n// ==/UserScript==",
        "(f)();;",
        "(f)() ;\t",
        "",
    ];
    for c in cases {
        assert_eq!(prepare_script(c), by_regex(c), "case {c:?}");
    }
}

#[test]
fn plain_script_gets_wrapped() {
    assert_eq!(prepare_script("a()"), "(function() {\na()\n})();");
}

#[test]
fn header_without_run_at_defers_script() {
    let s = "// ==UserScript==\n// ==/UserScript==\n(go)()";
    assert_eq!(
        prepare_script(s),
        "(function() {\ndocument.addEventListener('DOMContentLoaded', function() {\n// ==UserScript==\n// ==/UserScript==\n(go)()\n});\n})();"
    );
}

#[test]
fn blocklist_file_and_fallback() {
    let urls = blocklist_urls(r#"["*://a.com/*", "b"]"#, r#"["d"]"#).unwrap();
    assert_eq!(urls, strings(&["*://a.com/*", "b"]));
    assert_eq!(blocklist_urls("not json", r#"["d"]"#).unwrap(), strings(&["d"]));
    assert!(blocklist_urls("{}", "[1]").is_none());
    assert_eq!(default_list(r#"["--x"]"#).unwrap(), strings(&["--x"]));
    assert!(default_list("[").is_none());
}

#[test]
fn final_list_keeps_order() {
    let out = final_list(strings(&["a", "b", "c"]), &strings(&["b", ""]), strings(&["x"]));
    assert_eq!(out, strings(&["a", "c", "x"]));
}

#[test]
fn flag_strings() {
    let flags = strings(&["--disable-gpu-vsync", "--foo"]);
    assert_eq!(flag_arguments(&flags), "--disable-gpu-vsync --foo ");
    assert_eq!(join_with_spaces(&flags), "--disable-gpu-vsync --foo");
    assert_eq!(join_with_spaces(&strings(&[])), "");
    assert_eq!(browser_arguments("--a ".to_string(), true), "--a  --disable-frame-rate-limit");
    assert_eq!(browser_arguments("--a ".to_string(), false), "--a ");
}

#[test]
fn wildcards_become_anchored_patterns() {
    assert_eq!(wildcard_pattern("*://*.example2.com/*"), "^.*://.*.example2.com/.*$");
    let res = blocklist_regexes(&strings(&["*://ads.com/*", "x"])).unwrap();
    assert_eq!(res.len(), 2);
    assert!(res[0].regex().is_match("https://ads.com/banner"));
    assert!(!res[0].regex().is_match("https://good.com/ads.com/"));
    assert!(blocklist_regexes(&strings(&["(unclosed"])).is_none());
}
