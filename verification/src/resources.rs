//! Requests for web resources: which the client lets through, which it answers with a file
//! of the resource swapper, and which it blocks; and the URL filters of swapped files.
use vstd::prelude::*;
use crate::text::{
    chars_of, contains, contains_exec, extend_chars, same_chars, split_exec, split_spec, string_of,
    views,
};

verus! {

broadcast use vstd::string::group_string_axioms;

/// What happens to a web resource request.
#[derive(Clone, Copy, Debug, PartialEq, Eq, Structural)]
pub enum ResourceDecision {
    /// A game-info or ranked-lobby request: tell the page the game was updated and let the
    /// request through.
    NotifyGameUpdated,
    /// Answer with the swapped file at this index of the swap list.
    Swap { index: usize },
    /// Block the request.
    Block,
}

/// The file that a game-site request asks for: the text after the first `krunker.io/` up
/// to the next one, cut at the first `?` (empty when the URI has no `krunker.io/`).
pub open spec fn requested_file(uri: Seq<char>) -> Seq<char> {
    let pieces = split_spec(uri, "krunker.io/"@);
    if pieces.len() >= 2 {
        split_spec(pieces[1], "?"@)[0]
    } else {
        Seq::empty()
    }
}

/// The index of the first name in `names` equal to `file`.
pub open spec fn first_index(names: Seq<Seq<char>>, file: Seq<char>) -> Option<int>
    decreases names.len(),
{
    if names.len() == 0 {
        None
    } else if names.last() == file && first_index(names.drop_last(), file) is None {
        Some(names.len() - 1)
    } else {
        first_index(names.drop_last(), file)
    }
}

/// The names of the swapped files.
pub open spec fn names_of(names: Seq<String>) -> Seq<Seq<char>> {
    names.map_values(|n: String| n@)
}

/// What happens to a request for `uri`: on the game site, game-info and ranked-lobby
/// requests go through with a notice, a swapped file is served in place of the game's own,
/// and everything else is blocked.
pub open spec fn resource_decision(uri: Seq<char>, names: Seq<Seq<char>>) -> ResourceDecision {
    if contains(uri, "krunker.io"@) {
        if contains(uri, "game-info"@) || contains(uri, "lobby-ranked"@) {
            ResourceDecision::NotifyGameUpdated
        } else {
            match first_index(names, requested_file(uri)) {
                Some(i) => ResourceDecision::Swap { index: i as usize },
                None => ResourceDecision::Block,
            }
        }
    } else {
        ResourceDecision::Block
    }
}

/// The file that a game-site request asks for.
pub fn requested_file_exec(uri: &[char]) -> (r: Vec<char>)
    ensures
        r@ == requested_file(uri@),
{
    let sep = chars_of("krunker.io/");
    proof {
        reveal_strlit("krunker.io/");
        reveal_strlit("?");
    }
    let pieces = split_exec(uri, sep.as_slice());
    if pieces.len() >= 2 {
        assert(views(pieces@)[1] == pieces@[1]@);
        let q = chars_of("?");
        let parts = split_exec(pieces[1].as_slice(), q.as_slice());
        assert(views(parts@)[0] == parts@[0]@);
        parts[0].clone()
    } else {
        Vec::new()
    }
}

/// The index of the first of `names` equal to `file`.
fn first_index_exec(names: &Vec<String>, file: &Vec<char>) -> (r: Option<usize>)
    ensures
        r matches Some(i) ==> first_index(names_of(names@), file@) == Some(i as int),
        r is None ==> first_index(names_of(names@), file@) is None,
{
    let ghost all = names_of(names@);
    let mut i: usize = 0;
    while i < names.len()
        invariant
            i <= names.len(),
            all == names_of(names@),
            first_index(all.take(i as int), file@) is None,
            forall|k: int| 0 <= k < i ==> all[k] != file@,
        decreases names.len() - i,
    {
        let n = chars_of(names[i].as_str());
        assert(all.take(i + 1).drop_last() =~= all.take(i as int));
        if same_chars(n.as_slice(), file.as_slice()) {
            proof {
                lemma_first_index_prefix(all, file@, i + 1);
            }
            return Some(i);
        }
        i = i + 1;
    }
    assert(all.take(names.len() as int) =~= all);
    None
}

/// A match found within a prefix is the first match of the whole list.
proof fn lemma_first_index_prefix(names: Seq<Seq<char>>, file: Seq<char>, n: int)
    requires
        0 <= n <= names.len(),
        first_index(names.take(n), file) is Some,
    ensures
        first_index(names, file) == first_index(names.take(n), file),
    decreases names.len() - n,
{
    if n < names.len() {
        assert(names.take(n + 1).drop_last() =~= names.take(n));
        lemma_first_index_prefix(names, file, n + 1);
    } else {
        assert(names.take(n) =~= names);
    }
}

/// What happens to a request for `uri`, given the names of the swapped files.
pub fn decide_resource(uri: &str, swap_names: &Vec<String>) -> (r: ResourceDecision)
    ensures
        r == resource_decision(uri@, names_of(swap_names@)),
{
    let u = chars_of(uri);
    let site = chars_of("krunker.io");
    if !contains_exec(u.as_slice(), site.as_slice()) {
        return ResourceDecision::Block;
    }
    let gi = chars_of("game-info");
    let lr = chars_of("lobby-ranked");
    if contains_exec(u.as_slice(), gi.as_slice()) || contains_exec(u.as_slice(), lr.as_slice()) {
        return ResourceDecision::NotifyGameUpdated;
    }
    let file = requested_file_exec(u.as_slice());
    match first_index_exec(swap_names, &file) {
        Some(i) => ResourceDecision::Swap { index: i },
        None => ResourceDecision::Block,
    }
}

/// A path with every backslash turned into a slash.
pub open spec fn forward_slashes(s: Seq<char>) -> Seq<char> {
    s.map_values(|c: char| if c == '\\' { '/' } else { c })
}

/// A relative path of the swapper folder with forward slashes.
pub fn normalize_relative_path(path: &str) -> (r: String)
    ensures
        r@ == forward_slashes(path@),
{
    let p = chars_of(path);
    let mut out: Vec<char> = Vec::new();
    let mut i: usize = 0;
    while i < p.len()
        invariant
            i <= p.len(),
            p@ == path@,
            out@ == forward_slashes(p@.take(i as int)),
        decreases p.len() - i,
    {
        let c = p[i];
        out.push(if c == '\\' { '/' } else { c });
        assert(forward_slashes(p@.take(i + 1)) =~= forward_slashes(p@.take(i as int)).push(
            if c == '\\' { '/' } else { c },
        ));
        i = i + 1;
    }
    assert(p@.take(p.len() as int) =~= p@);
    string_of(out.as_slice())
}

/// The two request filters that route a swapped file: on the site and on its subdomains.
pub fn swap_filters(relative: &str) -> (r: (String, String))
    ensures
        r.0@ == "*://krunker.io/"@ + relative@ + "*"@,
        r.1@ == "*://*.krunker.io/"@ + relative@ + "*"@,
{
    let rel = chars_of(relative);
    let star = chars_of("*");
    let mut a = chars_of("*://krunker.io/");
    extend_chars(&mut a, rel.as_slice());
    extend_chars(&mut a, star.as_slice());
    let mut b = chars_of("*://*.krunker.io/");
    extend_chars(&mut b, rel.as_slice());
    extend_chars(&mut b, star.as_slice());
    (string_of(a.as_slice()), string_of(b.as_slice()))
}

/// A new window shows the game's social page, where the social user scripts are loaded.
pub fn is_social_page(uri: &str) -> (r: bool)
    ensures
        r == contains(uri@, "krunker.io/social.html"@),
{
    let u = chars_of(uri);
    let p = chars_of("krunker.io/social.html");
    contains_exec(u.as_slice(), p.as_slice())
}

} // verus!
