//! User scripts: the `// ==UserScript==` header decides when a script runs, and a script
//! that is not already an immediately-invoked function is wrapped in one.
use vstd::prelude::*;
use crate::text::{
    chars_of, contains, contains_exec, extend_chars, find_from, find_from_exec, is_whitespace,
    is_whitespace_exec, lemma_find_from_bounds, occurs_at, occurs_at_exec, string_of,
};

verus! {

broadcast use vstd::string::group_string_axioms;

/// The number of whitespace characters that `s` begins with.
pub open spec fn leading_ws(s: Seq<char>) -> nat
    decreases s.len(),
{
    if s.len() > 0 && is_whitespace(s[0]) {
        1 + leading_ws(s.drop_first())
    } else {
        0
    }
}

/// The line that opens a user script header.
pub open spec fn header_open() -> Seq<char> {
    "// ==UserScript=="@
}

/// The line that closes a user script header.
pub open spec fn header_close() -> Seq<char> {
    "// ==/UserScript=="@
}

/// Where the header block of a script ends, if the script has one: the script must start,
/// after any whitespace, with the opening line, and the block runs to the end of the first
/// closing line after it. This is the match of the pattern
/// `(?s)\A\s*// ==UserScript==.*?// ==/UserScript==`.
pub open spec fn header_end(s: Seq<char>) -> Option<int> {
    let w = leading_ws(s) as int;
    if occurs_at(s, header_open(), w) {
        match find_from(s, header_close(), w + header_open().len()) {
            Some(i) => Some(i + header_close().len()),
            None => None,
        }
    } else {
        None
    }
}

/// The header directive that makes a script run at document start.
pub open spec fn run_at_start() -> Seq<char> {
    "// @run-at document-start"@
}

/// The text placed before a script that is to run once the document has loaded.
pub open spec fn dom_ready_open() -> Seq<char> {
    "document.addEventListener('DOMContentLoaded', function() {\n"@
}

/// The text placed after a script that is to run once the document has loaded.
pub open spec fn dom_ready_close() -> Seq<char> {
    "\n});"@
}

/// The text placed before a script that needs wrapping in a function.
pub open spec fn iife_open() -> Seq<char> {
    "(function() {\n"@
}

/// The text placed after a script that needs wrapping in a function.
pub open spec fn iife_close() -> Seq<char> {
    "\n})();"@
}

/// `s[i..j]` is whitespace only.
pub open spec fn ws_run(s: Seq<char>, i: int, j: int) -> bool {
    &&& 0 <= i <= j <= s.len()
    &&& forall|k: int| i <= k < j ==> is_whitespace(#[trigger] s[k])
}

/// A single or double quote.
pub open spec fn is_quote(c: char) -> bool {
    c == '\'' || c == '"'
}

/// `s[i..j]` is a `'use strict'` directive: a quote, `use strict`, a quote, an optional
/// `;`, and whitespace.
pub open spec fn use_strict_at(s: Seq<char>, i: int, j: int) -> bool {
    &&& 0 <= i
    &&& i + 12 <= s.len()
    &&& is_quote(s[i])
    &&& s.subrange(i + 1, i + 11) == "use strict"@
    &&& is_quote(s[i + 11])
    &&& (ws_run(s, i + 12, j) || (i + 12 < s.len() && s[i + 12] == ';' && ws_run(
        s,
        i + 13,
        j,
    )))
}

/// `s` is an immediately invoked function expression: the whole text matches
/// `(?s)^\s*(?:['"]use strict['"];?\s*)?\(.*\)\s*\(\s*\)\s*;?\s*$`, where the body between
/// the first `(` at `p` and the `)` at `c` is anything.
pub open spec fn iife_at(s: Seq<char>, w: int, p: int, c: int, d: int, e: int, g: int, f: int) -> bool {
    &&& ws_run(s, 0, w)
    &&& (p == w || use_strict_at(s, w, p))
    &&& p < c
    &&& s[p] == '('
    &&& s[c] == ')'
    &&& ws_run(s, c + 1, d)
    &&& d < s.len()
    &&& s[d] == '('
    &&& ws_run(s, d + 1, e)
    &&& e < s.len()
    &&& s[e] == ')'
    &&& ws_run(s, e + 1, g)
    &&& (f == g || (g < s.len() && s[g] == ';' && f == g + 1))
    &&& ws_run(s, f, s.len() as int)
}

/// Some way of reading `s` as an immediately invoked function expression exists.
pub open spec fn is_iife(s: Seq<char>) -> bool {
    exists|w: int, p: int, c: int, d: int, e: int, g: int, f: int| iife_at(s, w, p, c, d, e, g, f)
}

/// One past the last character of `s[..b]` that is not whitespace.
pub open spec fn ws_back(s: Seq<char>, b: int) -> int
    decreases b,
{
    if b > 0 && is_whitespace(s[b - 1]) {
        ws_back(s, b - 1)
    } else {
        b
    }
}

/// The first index at or after `i` whose character is not whitespace.
pub open spec fn ws_fwd(s: Seq<char>, i: int) -> int
    decreases s.len() - i,
{
    if 0 <= i < s.len() && is_whitespace(s[i]) {
        ws_fwd(s, i + 1)
    } else {
        i
    }
}

/// `s[i..]` begins with a quote, `use strict` and a quote.
pub open spec fn use_strict_shape(s: Seq<char>, i: int) -> bool {
    &&& 0 <= i
    &&& i + 12 <= s.len()
    &&& is_quote(s[i])
    &&& s.subrange(i + 1, i + 11) == "use strict"@
    &&& is_quote(s[i + 11])
}

/// The positions that a reading as an immediately invoked function must use, found by
/// scanning: the final `)` (`e`), the `(` before it (`d`), the `)` that closes the body
/// (`c`), the optional `;` (`g`, with `f` past it), the first non-blank character (`w`) and
/// the `(` that opens the body (`p`).
pub open spec fn iife_f(s: Seq<char>) -> int {
    ws_back(s, s.len() as int)
}

pub open spec fn iife_semi(s: Seq<char>) -> bool {
    iife_f(s) > 0 && s[iife_f(s) - 1] == ';'
}

pub open spec fn iife_g(s: Seq<char>) -> int {
    if iife_semi(s) { iife_f(s) - 1 } else { iife_f(s) }
}

pub open spec fn iife_e(s: Seq<char>) -> int {
    (if iife_semi(s) { ws_back(s, iife_f(s) - 1) } else { iife_f(s) }) - 1
}

pub open spec fn iife_d(s: Seq<char>) -> int {
    ws_back(s, iife_e(s)) - 1
}

pub open spec fn iife_c(s: Seq<char>) -> int {
    ws_back(s, iife_d(s)) - 1
}

pub open spec fn iife_w(s: Seq<char>) -> int {
    ws_fwd(s, 0)
}

pub open spec fn iife_p(s: Seq<char>) -> int {
    let w = iife_w(s);
    if w < s.len() && s[w] == '(' {
        w
    } else if use_strict_shape(s, w) {
        if w + 12 < s.len() && s[w + 12] == ';' {
            ws_fwd(s, w + 13)
        } else {
            ws_fwd(s, w + 12)
        }
    } else {
        -1
    }
}

/// The scan finds a reading as an immediately invoked function.
pub open spec fn iife_scan(s: Seq<char>) -> bool {
    &&& iife_e(s) >= 0
    &&& s[iife_e(s)] == ')'
    &&& iife_d(s) >= 0
    &&& s[iife_d(s)] == '('
    &&& iife_c(s) >= 0
    &&& s[iife_c(s)] == ')'
    &&& iife_p(s) >= 0
    &&& iife_p(s) < iife_c(s)
    &&& s[iife_p(s)] == '('
}

proof fn lemma_ws_back(s: Seq<char>, b: int)
    requires
        0 <= b <= s.len(),
    ensures
        0 <= ws_back(s, b) <= b,
        ws_run(s, ws_back(s, b), b),
        ws_back(s, b) == 0 || !is_whitespace(s[ws_back(s, b) - 1]),
    decreases b,
{
    if b > 0 && is_whitespace(s[b - 1]) {
        lemma_ws_back(s, b - 1);
    }
}

proof fn lemma_ws_back_exact(s: Seq<char>, a: int, b: int)
    requires
        0 <= a < b <= s.len(),
        !is_whitespace(s[a]),
        ws_run(s, a + 1, b),
    ensures
        ws_back(s, b) == a + 1,
    decreases b,
{
    if b > a + 1 {
        assert(is_whitespace(s[b - 1]));
        lemma_ws_back_exact(s, a, b - 1);
    }
}

proof fn lemma_ws_fwd(s: Seq<char>, i: int)
    requires
        0 <= i <= s.len(),
    ensures
        i <= ws_fwd(s, i) <= s.len(),
        ws_run(s, i, ws_fwd(s, i)),
        ws_fwd(s, i) == s.len() || !is_whitespace(s[ws_fwd(s, i)]),
    decreases s.len() - i,
{
    if i < s.len() && is_whitespace(s[i]) {
        lemma_ws_fwd(s, i + 1);
    }
}

proof fn lemma_ws_fwd_exact(s: Seq<char>, i: int, a: int)
    requires
        0 <= i <= a < s.len(),
        !is_whitespace(s[a]),
        ws_run(s, i, a),
    ensures
        ws_fwd(s, i) == a,
    decreases a - i,
{
    if i < a {
        assert(is_whitespace(s[i]));
        lemma_ws_fwd_exact(s, i + 1, a);
    }
}

/// Any reading as an immediately invoked function uses the scanned positions.
proof fn lemma_iife_reading(s: Seq<char>, w: int, p: int, c: int, d: int, e: int, g: int, f: int)
    requires
        iife_at(s, w, p, c, d, e, g, f),
    ensures
        iife_scan(s),
{
    let n = s.len() as int;
    assert(!is_whitespace(')') && !is_whitespace('(') && !is_whitespace(';'));
    assert(!is_whitespace('\'') && !is_whitespace('"'));
    if f == g + 1 {
        lemma_ws_back_exact(s, g, n);
        assert(iife_semi(s));
        lemma_ws_back_exact(s, e, g);
    } else {
        assert(ws_run(s, e + 1, n));
        lemma_ws_back_exact(s, e, n);
    }
    assert(iife_e(s) == e);
    lemma_ws_back_exact(s, d, e);
    assert(iife_d(s) == d);
    lemma_ws_back_exact(s, c, d);
    assert(iife_c(s) == c);
    if p == w {
        lemma_ws_fwd_exact(s, 0, w);
        assert(iife_p(s) == p);
    } else {
        assert(use_strict_at(s, w, p));
        lemma_ws_fwd_exact(s, 0, w);
        assert(use_strict_shape(s, w));
        if w + 12 < n && s[w + 12] == ';' {
            if ws_run(s, w + 12, p) {
                if w + 12 < p {
                    assert(is_whitespace(s[w + 12]));
                }
            }
            assert(ws_run(s, w + 13, p));
            lemma_ws_fwd_exact(s, w + 13, p);
        } else {
            assert(ws_run(s, w + 12, p));
            lemma_ws_fwd_exact(s, w + 12, p);
        }
        assert(iife_p(s) == p);
    }
}

/// A successful scan is a reading as an immediately invoked function.
proof fn lemma_iife_scan(s: Seq<char>)
    requires
        iife_scan(s),
    ensures
        is_iife(s),
{
    let n = s.len() as int;
    lemma_ws_back(s, n);
    let f = iife_f(s);
    if iife_semi(s) {
        lemma_ws_back(s, f - 1);
    }
    let e = iife_e(s);
    lemma_ws_back(s, e);
    let d = iife_d(s);
    lemma_ws_back(s, d);
    let c = iife_c(s);
    lemma_ws_fwd(s, 0);
    let w = iife_w(s);
    let p = iife_p(s);
    if !(w < n && s[w] == '(') {
        if w + 12 < n && s[w + 12] == ';' {
            lemma_ws_fwd(s, w + 13);
        } else {
            lemma_ws_fwd(s, w + 12);
        }
        assert(use_strict_at(s, w, p));
    }
    let g = iife_g(s);
    assert(iife_at(s, w, p, c, d, e, g, f));
}

/// A script after its header has been honoured: one without the run-at-start directive in
/// its header is deferred until the document has loaded.
pub open spec fn with_header_applied(s: Seq<char>) -> Seq<char> {
    match header_end(s) {
        Some(e) => if contains(s.take(e), run_at_start()) {
            s
        } else {
            dom_ready_open() + s + dom_ready_close()
        },
        None => s,
    }
}

/// The script that is handed to the page.
pub open spec fn prepared_script(s: Seq<char>) -> Seq<char> {
    let t = with_header_applied(s);
    if is_iife(t) {
        t
    } else {
        iife_open() + t + iife_close()
    }
}

/// The leading whitespace count of `s` is the first index whose character is not
/// whitespace.
pub proof fn lemma_leading_ws(s: Seq<char>, w: int)
    requires
        ws_run(s, 0, w),
        w == s.len() || !is_whitespace(s[w]),
    ensures
        leading_ws(s) == w,
    decreases w,
{
    if w > 0 {
        assert(is_whitespace(s[0]));
        let t = s.drop_first();
        assert forall|k: int| 0 <= k < w - 1 implies is_whitespace(#[trigger] t[k]) by {
            assert(t[k] == s[k + 1]);
        }
        if w - 1 < t.len() {
            assert(t[w - 1] == s[w]);
        }
        lemma_leading_ws(t, w - 1);
    }
}

/// The index of the first character of `s[from..]` that is not whitespace.
fn skip_ws(s: &[char], from: usize) -> (r: usize)
    requires
        from <= s.len(),
    ensures
        r == ws_fwd(s@, from as int),
{
    let mut i = from;
    while i < s.len() && is_whitespace_exec(s[i])
        invariant
            from <= i <= s.len(),
            ws_fwd(s@, i as int) == ws_fwd(s@, from as int),
        decreases s.len() - i,
    {
        i = i + 1;
    }
    i
}

/// One past the last character of `s[..to]` that is not whitespace.
fn skip_ws_back(s: &[char], to: usize) -> (r: usize)
    requires
        to <= s.len(),
    ensures
        r == ws_back(s@, to as int),
{
    let mut j = to;
    while j > 0 && is_whitespace_exec(s[j - 1])
        invariant
            j <= to <= s.len(),
            ws_back(s@, j as int) == ws_back(s@, to as int),
        decreases j,
    {
        j = j - 1;
    }
    j
}

/// Where the header block of a script ends, if it has one.
fn header_end_exec(s: &[char]) -> (r: Option<usize>)
    ensures
        r matches Some(e) ==> header_end(s@) == Some(e as int) && e <= s.len(),
        r is None ==> header_end(s@) is None,
{
    let w = skip_ws(s, 0);
    proof {
        lemma_ws_fwd(s@, 0);
        lemma_leading_ws(s@, w as int);
    }
    let open = chars_of("// ==UserScript==");
    let close = chars_of("// ==/UserScript==");
    if !occurs_at_exec(s, open.as_slice(), w) {
        return None;
    }
    assert(w + open.len() <= s.len());
    match find_from_exec(s, close.as_slice(), w + open.len()) {
        Some(i) => {
            proof {
                lemma_find_from_bounds(s@, close@, w + open.len());
            }
            Some(i + close.len())
        },
        None => None,
    }
}

/// Whether `s` is an immediately invoked function expression.
fn is_iife_exec(s: &[char]) -> (r: bool)
    ensures
        r == is_iife(s@),
{
    let n = s.len();
    proof {
        lemma_ws_back(s@, n as int);
        lemma_ws_fwd(s@, 0);
        if is_iife(s@) {
            let (w, p, c, d, e, g, f) = choose|w: int, p: int, c: int, d: int, e: int, g: int, f: int|
                iife_at(s@, w, p, c, d, e, g, f);
            lemma_iife_reading(s@, w, p, c, d, e, g, f);
        }
    }
    let f = skip_ws_back(s, n);
    let j = if f > 0 && s[f - 1] == ';' {
        proof {
            lemma_ws_back(s@, f - 1);
        }
        skip_ws_back(s, f - 1)
    } else {
        f
    };
    if j == 0 || s[j - 1] != ')' {
        return false;
    }
    let e = j - 1;
    proof {
        lemma_ws_back(s@, e as int);
    }
    let j2 = skip_ws_back(s, e);
    if j2 == 0 || s[j2 - 1] != '(' {
        return false;
    }
    let d = j2 - 1;
    proof {
        lemma_ws_back(s@, d as int);
    }
    let j3 = skip_ws_back(s, d);
    if j3 == 0 || s[j3 - 1] != ')' {
        return false;
    }
    let c = j3 - 1;
    let w = skip_ws(s, 0);
    let p: usize = if w < n && s[w] == '(' {
        w
    } else {
        let lit = chars_of("use strict");
        proof {
            reveal_strlit("use strict");
        }
        if n < 12 || w > n - 12 {
            return false;
        }
        let q1 = s[w];
        let q2 = s[w + 11];
        if !((q1 == '\'' || q1 == '"') && (q2 == '\'' || q2 == '"') && occurs_at_exec(
            s,
            lit.as_slice(),
            w + 1,
        )) {
            assert(!use_strict_shape(s@, w as int));
            return false;
        }
        assert(use_strict_shape(s@, w as int));
        if w + 12 < n && s[w + 12] == ';' {
            skip_ws(s, w + 13)
        } else {
            skip_ws(s, w + 12)
        }
    };
    assert(p == iife_p(s@));
    if p < c && s[p] == '(' {
        proof {
            lemma_iife_scan(s@);
        }
        true
    } else {
        false
    }
}

/// Prepares a user script for the page: a script whose header lacks the run-at-start
/// directive is deferred until the document has loaded, and a script that is not already
/// an immediately invoked function is wrapped in one.
pub fn prepare_script(content: &str) -> (r: String)
    ensures
        r@ == prepared_script(content@),
{
    let s = chars_of(content);
    let t: Vec<char> = match header_end_exec(s.as_slice()) {
        Some(e) => {
            let run_at = chars_of("// @run-at document-start");
            let head = crate::text::slice_chars(s.as_slice(), 0, e);
            assert(head@ =~= s@.take(e as int));
            if contains_exec(head.as_slice(), run_at.as_slice()) {
                s
            } else {
                let mut t = chars_of("document.addEventListener('DOMContentLoaded', function() {\n");
                extend_chars(&mut t, s.as_slice());
                let tail = chars_of("\n});");
                extend_chars(&mut t, tail.as_slice());
                t
            }
        },
        None => s,
    };
    if is_iife_exec(t.as_slice()) {
        string_of(t.as_slice())
    } else {
        let mut u = chars_of("(function() {\n");
        extend_chars(&mut u, t.as_slice());
        let tail = chars_of("\n})();");
        extend_chars(&mut u, tail.as_slice());
        string_of(u.as_slice())
    }
}

} // verus!
