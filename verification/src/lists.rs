//! The URL blocklist and the browser flag list: the default lists, the user's additions and
//! disabled defaults, the argument string handed to the browser, and the regular expressions
//! that the URL wildcards stand for.
use vstd::prelude::*;
use crate::text::{chars_of, extend_chars, str_is, string_of};

verus! {

broadcast use vstd::string::group_string_axioms;

/// The characters of each string of a list.
pub open spec fn texts(v: Seq<String>) -> Seq<Seq<char>> {
    v.map_values(|s: String| s@)
}

/// The list that `serde_json::from_str::<Vec<String>>` reads from `text`, when it reads
/// one: the result depends on the text alone.
pub uninterp spec fn json_string_list(text: Seq<char>) -> Option<Seq<Seq<char>>>;

/// Reads a JSON array of strings (`serde_json::from_str::<Vec<String>>`).
#[verifier::external_body]
fn parse_string_list(text: &str) -> (r: Option<Vec<String>>)
    ensures
        r matches Some(v) ==> json_string_list(text@) == Some(texts(v@)),
        r is None ==> json_string_list(text@) is None,
{
    serde_json::from_str::<Vec<String>>(text).ok()
}

/// The blocklist from its file: the file's list when it reads as a JSON array of strings,
/// otherwise the default list (`None` when that does not read either).
pub fn blocklist_urls(user_text: &str, default_text: &str) -> (r: Option<Vec<String>>)
    ensures
        json_string_list(user_text@) is Some ==> (r matches Some(v) && Some(texts(v@))
            == json_string_list(user_text@)),
        json_string_list(user_text@) is None ==> (r matches Some(v) ==> Some(texts(v@))
            == json_string_list(default_text@)) && (r is None <==> json_string_list(
            default_text@,
        ) is None),
{
    match parse_string_list(user_text) {
        Some(v) => Some(v),
        None => parse_string_list(default_text),
    }
}

/// The default list of the client (blocked URLs or browser flags), read from its JSON text
/// (`None` when it does not read).
pub fn default_list(text: &str) -> (r: Option<Vec<String>>)
    ensures
        r matches Some(v) ==> json_string_list(text@) == Some(texts(v@)),
        r is None ==> json_string_list(text@) is None,
{
    parse_string_list(text)
}

/// The defaults that are not disabled, in order.
pub open spec fn kept_defaults(defaults: Seq<Seq<char>>, disabled: Seq<Seq<char>>) -> Seq<Seq<char>>
    decreases defaults.len(),
{
    if defaults.len() == 0 {
        Seq::empty()
    } else if disabled.contains(defaults.last()) {
        kept_defaults(defaults.drop_last(), disabled)
    } else {
        kept_defaults(defaults.drop_last(), disabled).push(defaults.last())
    }
}

/// `s` is one of `list`.
fn is_listed(list: &Vec<String>, s: &String) -> (r: bool)
    ensures
        r == texts(list@).contains(s@),
{
    let mut i: usize = 0;
    while i < list.len()
        invariant
            i <= list.len(),
            forall|k: int| 0 <= k < i ==> list@[k]@ != s@,
        decreases list.len() - i,
    {
        if str_is(list[i].as_str(), s.as_str()) {
            assert(texts(list@)[i as int] == s@);
            return true;
        }
        i = i + 1;
    }
    assert forall|k: int| 0 <= k < texts(list@).len() implies texts(list@)[k] != s@ by {
        assert(texts(list@)[k] == list@[k]@);
    }
    false
}

/// The final list: the defaults that the user did not disable, in order, then the user's
/// own entries.
pub fn final_list(defaults: Vec<String>, disabled: &Vec<String>, extra: Vec<String>) -> (r: Vec<String>)
    ensures
        texts(r@) == kept_defaults(texts(defaults@), texts(disabled@)) + texts(extra@),
{
    let ghost d = texts(defaults@);
    let mut out: Vec<String> = Vec::new();
    let mut i: usize = 0;
    while i < defaults.len()
        invariant
            i <= defaults.len(),
            d == texts(defaults@),
            texts(out@) == kept_defaults(d.take(i as int), texts(disabled@)),
        decreases defaults.len() - i,
    {
        assert(d.take(i + 1).drop_last() =~= d.take(i as int));
        assert(d.take(i + 1).last() == defaults@[i as int]@);
        if !is_listed(disabled, &defaults[i]) {
            let ghost before = out@;
            out.push(defaults[i].clone());
            assert(texts(out@) =~= texts(before).push(defaults@[i as int]@));
        }
        i = i + 1;
    }
    assert(d.take(defaults.len() as int) =~= d);
    let mut j: usize = 0;
    let ghost base = out@;
    while j < extra.len()
        invariant
            j <= extra.len(),
            texts(out@) == texts(base) + texts(extra@).take(j as int),
        decreases extra.len() - j,
    {
        let ghost before = out@;
        out.push(extra[j].clone());
        assert(texts(out@) =~= texts(before).push(extra@[j as int]@));
        assert(texts(extra@).take(j + 1) =~= texts(extra@).take(j as int).push(texts(extra@)[j as int]));
        assert(texts(out@) =~= texts(base) + texts(extra@).take(j + 1));
        j = j + 1;
    }
    assert(texts(extra@).take(extra.len() as int) =~= texts(extra@));
    out
}

/// Each entry followed by a space.
pub open spec fn spaced(list: Seq<Seq<char>>) -> Seq<char>
    decreases list.len(),
{
    if list.len() == 0 {
        Seq::empty()
    } else {
        spaced(list.drop_last()) + list.last() + seq![' ']
    }
}

/// The entries joined with single spaces (`join(" ")`).
pub open spec fn joined(list: Seq<Seq<char>>) -> Seq<char>
    decreases list.len(),
{
    if list.len() == 0 {
        Seq::empty()
    } else if list.len() == 1 {
        list[0]
    } else {
        joined(list.drop_last()) + seq![' '] + list.last()
    }
}

/// The browser arguments from the final flag list: each flag followed by a space.
pub fn flag_arguments(flags: &Vec<String>) -> (r: String)
    ensures
        r@ == spaced(texts(flags@)),
{
    let ghost f = texts(flags@);
    let mut out: Vec<char> = Vec::new();
    let mut i: usize = 0;
    while i < flags.len()
        invariant
            i <= flags.len(),
            f == texts(flags@),
            out@ == spaced(f.take(i as int)),
        decreases flags.len() - i,
    {
        let c = chars_of(flags[i].as_str());
        extend_chars(&mut out, c.as_slice());
        out.push(' ');
        assert(f.take(i + 1).drop_last() =~= f.take(i as int));
        assert(out@ =~= spaced(f.take(i + 1)));
        i = i + 1;
    }
    assert(f.take(flags.len() as int) =~= f);
    string_of(out.as_slice())
}

/// The entries of a list joined with single spaces, as the flag loader returns the default
/// flags when the user's file cannot be used.
pub fn join_with_spaces(list: &Vec<String>) -> (r: String)
    ensures
        r@ == joined(texts(list@)),
{
    let ghost f = texts(list@);
    let mut out: Vec<char> = Vec::new();
    let mut i: usize = 0;
    while i < list.len()
        invariant
            i <= list.len(),
            f == texts(list@),
            out@ == joined(f.take(i as int)),
        decreases list.len() - i,
    {
        let c = chars_of(list[i].as_str());
        assert(f.take(i + 1).drop_last() =~= f.take(i as int));
        if i > 0 {
            out.push(' ');
        }
        extend_chars(&mut out, c.as_slice());
        assert(out@ =~= joined(f.take(i + 1)));
        i = i + 1;
    }
    assert(f.take(list.len() as int) =~= f);
    string_of(out.as_slice())
}

/// The browser arguments with the frame rate limit switched off when `uncap_fps` is set.
pub fn browser_arguments(flags: String, uncap_fps: bool) -> (r: String)
    ensures
        uncap_fps ==> r@ == flags@ + " --disable-frame-rate-limit"@,
        !uncap_fps ==> r@ == flags@,
{
    if uncap_fps {
        let mut v = chars_of(flags.as_str());
        let extra = chars_of(" --disable-frame-rate-limit");
        extend_chars(&mut v, extra.as_slice());
        string_of(v.as_slice())
    } else {
        flags
    }
}

// ---------------------------------------------------------------------------
// Wildcards as regular expressions
// ---------------------------------------------------------------------------

/// A URL wildcard with each `*` turned into `.*`.
pub open spec fn expand_stars(u: Seq<char>) -> Seq<char>
    decreases u.len(),
{
    if u.len() == 0 {
        Seq::empty()
    } else if u.last() == '*' {
        expand_stars(u.drop_last()) + seq!['.', '*']
    } else {
        expand_stars(u.drop_last()).push(u.last())
    }
}

/// The regular expression of a URL wildcard: anchored at both ends, with `*` matching
/// anything.
pub open spec fn wildcard_regex(u: Seq<char>) -> Seq<char> {
    seq!['^'] + expand_stars(u) + seq!['$']
}

/// The regular expression of a URL wildcard.
pub fn wildcard_pattern(url: &str) -> (r: String)
    ensures
        r@ == wildcard_regex(url@),
{
    let u = chars_of(url);
    let mut out: Vec<char> = Vec::new();
    out.push('^');
    let mut i: usize = 0;
    while i < u.len()
        invariant
            i <= u.len(),
            u@ == url@,
            out@ == seq!['^'] + expand_stars(u@.take(i as int)),
        decreases u.len() - i,
    {
        assert(u@.take(i + 1).drop_last() =~= u@.take(i as int));
        if u[i] == '*' {
            out.push('.');
            out.push('*');
        } else {
            out.push(u[i]);
        }
        assert(out@ =~= seq!['^'] + expand_stars(u@.take(i + 1)));
        i = i + 1;
    }
    assert(u@.take(u.len() as int) =~= u@);
    out.push('$');
    string_of(out.as_slice())
}

#[verifier::external_type_specification]
#[verifier::external_body]
pub struct ExRegex(regex::Regex);

/// Whether `regex::Regex::new` accepts the pattern; the answer depends on the pattern alone.
pub uninterp spec fn regex_compiles(pattern: Seq<char>) -> bool;

/// A compiled regular expression together with the pattern it was compiled from.
pub struct CompiledPattern {
    pattern: String,
    regex: regex::Regex,
}

impl CompiledPattern {
    /// The pattern the expression was compiled from.
    pub closed spec fn source(&self) -> Seq<char> {
        self.pattern@
    }

    /// The expression compiled from `source()`, which this value holds.
    pub closed spec fn compiled(&self) -> regex::Regex {
        self.regex
    }

    /// The compiled expression.
    pub fn regex(&self) -> (r: &regex::Regex)
        ensures
            *r == self.compiled(),
    {
        &self.regex
    }
}

/// Compiles a regular expression (`regex::Regex::new`), `None` when the pattern is refused.
#[verifier::external_body]
fn compile_regex(pattern: &str) -> (r: Option<CompiledPattern>)
    ensures
        r is Some <==> regex_compiles(pattern@),
        r matches Some(c) ==> c.source() == pattern@,
{
    regex::Regex::new(pattern).ok().map(|regex| CompiledPattern { pattern: pattern.to_string(), regex })
}

/// The blocklist's wildcards as regular expressions, in order; `None` when one of them does
/// not compile.
pub fn blocklist_regexes(urls: &Vec<String>) -> (r: Option<Vec<CompiledPattern>>)
    ensures
        r matches Some(v) ==> v.len() == urls.len() && forall|i: int|
            0 <= i < urls.len() ==> regex_compiles(#[trigger] wildcard_regex(urls@[i]@)) && v@[i].source()
                == wildcard_regex(urls@[i]@),
        r is None ==> exists|i: int|
            0 <= i < urls.len() && !regex_compiles(#[trigger] wildcard_regex(urls@[i]@)),
{
    let mut out: Vec<CompiledPattern> = Vec::new();
    let mut i: usize = 0;
    while i < urls.len()
        invariant
            i <= urls.len(),
            out.len() == i,
            forall|k: int| 0 <= k < i ==> regex_compiles(#[trigger] wildcard_regex(urls@[k]@)) && out@[k].source()
                == wildcard_regex(urls@[k]@),
        decreases urls.len() - i,
    {
        let pattern = wildcard_pattern(urls[i].as_str());
        match compile_regex(pattern.as_str()) {
            Some(re) => out.push(re),
            None => {
                assert(!regex_compiles(wildcard_regex(urls@[i as int]@)));
                return None;
            },
        }
        i = i + 1;
    }
    Some(out)
}

} // verus!
