//! The client settings: a map from setting names to JSON values, filled from the user's
//! settings file and completed with the defaults.
use vstd::prelude::*;
use crate::json::{Json, json_value, parse_json, json_as_bool, json_as_string, json_as_u64, as_bool, as_string, as_u64};
use crate::text::{chars_of, same_chars};

verus! {

broadcast use vstd::string::group_string_axioms;

/// The settings map that a list of entries builds when each entry is stored in turn.
pub open spec fn entries_map(s: Seq<(String, Json)>) -> Map<Seq<char>, Json>
    decreases s.len(),
{
    if s.len() == 0 {
        Map::empty()
    } else {
        entries_map(s.drop_last()).insert(s.last().0@, s.last().1)
    }
}

/// `m` with `value` stored under `key` unless `key` already has a value
/// (`HashMap::entry(key).or_insert(value)`).
pub open spec fn or_insert(m: Map<Seq<char>, Json>, key: Seq<char>, value: Json) -> Map<
    Seq<char>,
    Json,
> {
    if m.contains_key(key) {
        m
    } else {
        m.insert(key, value)
    }
}

/// `m` completed with each entry of `d`, in order, for the keys it does not have yet.
pub open spec fn or_insert_all(m: Map<Seq<char>, Json>, d: Seq<(String, Json)>) -> Map<
    Seq<char>,
    Json,
>
    decreases d.len(),
{
    if d.len() == 0 {
        m
    } else {
        or_insert(or_insert_all(m, d.drop_last()), d.last().0@, d.last().1)
    }
}

/// The settings store.
pub struct Config {
    entries: Vec<(String, Json)>,
}

impl Config {
    /// No setting name occurs twice.
    #[verifier::type_invariant]
    spec fn keys_unique(self) -> bool {
        forall|i: int, j: int|
            0 <= i < j < self.entries.len() ==> self.entries@[i].0@ != self.entries@[j].0@
    }

    /// The settings, by name.
    pub closed spec fn view(&self) -> Map<Seq<char>, Json> {
        entries_map(self.entries@)
    }

    /// An empty store.
    pub fn new() -> (r: Config)
        ensures
            r.view() == Map::<Seq<char>, Json>::empty(),
    {
        Config { entries: Vec::new() }
    }

    /// The entries of the store, each name once.
    pub fn entries(&self) -> (r: &Vec<(String, Json)>)
        ensures
            entries_map(r@) == self.view(),
    {
        &self.entries
    }

    /// The index of the entry named `key`.
    fn index_of(&self, key: &Vec<char>) -> (r: Option<usize>)
        ensures
            r matches Some(i) ==> i < self.entries.len() && self.entries@[i as int].0@ == key@,
            r is None ==> forall|i: int|
                0 <= i < self.entries.len() ==> self.entries@[i].0@ != key@,
    {
        let mut i: usize = 0;
        while i < self.entries.len()
            invariant
                i <= self.entries.len(),
                forall|k: int| 0 <= k < i ==> self.entries@[k].0@ != key@,
            decreases self.entries.len() - i,
        {
            let name = chars_of(self.entries[i].0.as_str());
            if same_chars(name.as_slice(), key.as_slice()) {
                return Some(i);
            }
            i = i + 1;
        }
        None
    }

    /// The map of a list of entries with distinct names holds exactly their names, each with
    /// its value.
    proof fn lemma_entries_map(s: Seq<(String, Json)>)
        requires
            forall|i: int, j: int| 0 <= i < j < s.len() ==> s[i].0@ != s[j].0@,
        ensures
            forall|k: Seq<char>|
                entries_map(s).contains_key(k) <==> exists|i: int|
                    0 <= i < s.len() && #[trigger] s[i].0@ == k,
            forall|i: int| 0 <= i < s.len() ==> entries_map(s)[#[trigger] s[i].0@] == s[i].1,
        decreases s.len(),
    {
        if s.len() > 0 {
            let t = s.drop_last();
            Self::lemma_entries_map(t);
            assert forall|k: Seq<char>|
                entries_map(s).contains_key(k) <==> exists|i: int|
                    0 <= i < s.len() && #[trigger] s[i].0@ == k by {
                if entries_map(t).contains_key(k) {
                    let i = choose|i: int| 0 <= i < t.len() && #[trigger] t[i].0@ == k;
                    assert(s[i].0@ == k);
                }
                if exists|i: int| 0 <= i < s.len() && #[trigger] s[i].0@ == k {
                    let i = choose|i: int| 0 <= i < s.len() && #[trigger] s[i].0@ == k;
                    if i < s.len() - 1 {
                        assert(t[i].0@ == k);
                    }
                }
            }
            assert forall|i: int| 0 <= i < s.len() implies entries_map(s)[#[trigger] s[i].0@]
                == s[i].1 by {
                if i < s.len() - 1 {
                    assert(t[i] == s[i]);
                    assert(s[i].0@ != s.last().0@);
                }
            }
        }
    }

    /// The value stored under `key`.
    pub fn get(&self, key: &str) -> (r: Option<&Json>)
        ensures
            r matches Some(v) ==> self.view().contains_key(key@) && *v == self.view()[key@],
            r is None ==> !self.view().contains_key(key@),
    {
        proof {
            use_type_invariant(self);
            Self::lemma_entries_map(self.entries@);
        }
        let k = chars_of(key);
        match self.index_of(&k) {
            Some(i) => Some(&self.entries[i].1),
            None => None,
        }
    }

    /// Stores `value` under `key`, replacing any value it had.
    pub fn set(&mut self, key: &str, value: Json)
        ensures
            final(self).view() == old(self).view().insert(key@, value),
    {
        proof {
            use_type_invariant(&*self);
            Self::lemma_entries_map(self.entries@);
        }
        let k = chars_of(key);
        let ghost before = self.entries@;
        match self.index_of(&k) {
            Some(i) => {
                let mut entries: Vec<(String, Json)> = Vec::new();
                std::mem::swap(&mut entries, &mut self.entries);
                assert(entries@ == before);
                let name = entries[i].0.clone();
                entries.set(i, (name, value));
                proof {
                    assert forall|a: int, b: int| 0 <= a < b < entries.len() implies entries@[a].0@
                        != entries@[b].0@ by {
                        assert(entries@[a].0@ == before[a].0@);
                        assert(entries@[b].0@ == before[b].0@);
                    }
                    Self::lemma_entries_map(entries@);
                    let m1 = entries_map(entries@);
                    let m2 = entries_map(before).insert(key@, value);
                    assert(entries@[i as int].0@ == key@);
                    assert forall|k: Seq<char>| m1.contains_key(k) <==> m2.contains_key(k) by {
                        if m1.contains_key(k) {
                            let j = choose|j: int| 0 <= j < entries.len() && #[trigger] entries@[j].0@ == k;
                            assert(before[j].0@ == k);
                        }
                        if m2.contains_key(k) && k != key@ {
                            let j = choose|j: int| 0 <= j < before.len() && #[trigger] before[j].0@ == k;
                            assert(entries@[j].0@ == k);
                        }
                    }
                    assert forall|k: Seq<char>| #[trigger] m1.contains_key(k) implies m1[k] == m2[k] by {
                        let j = choose|j: int| 0 <= j < entries.len() && #[trigger] entries@[j].0@ == k;
                        if j != i {
                            assert(entries@[j] == before[j]);
                        }
                    }
                    assert(m1 =~= m2);
                }
                self.entries = entries;
            },
            None => {
                let mut entries: Vec<(String, Json)> = Vec::new();
                std::mem::swap(&mut entries, &mut self.entries);
                assert(entries@ == before);
                entries.push((crate::text::string_of(k.as_slice()), value));
                proof {
                    assert(entries@.drop_last() =~= before);
                }
                self.entries = entries;
            },
        }
    }

    /// The value under `key` read as a `bool`.
    pub fn get_bool(&self, key: &str) -> (r: Option<bool>)
        ensures
            r == (if self.view().contains_key(key@) {
                json_as_bool(self.view()[key@])
            } else {
                None
            }),
    {
        match self.get(key) {
            Some(v) => as_bool(v),
            None => None,
        }
    }

    /// The value under `key` read as a `u64`.
    pub fn get_u64(&self, key: &str) -> (r: Option<u64>)
        ensures
            r == (if self.view().contains_key(key@) {
                json_as_u64(self.view()[key@])
            } else {
                None
            }),
    {
        match self.get(key) {
            Some(v) => as_u64(v),
            None => None,
        }
    }

    /// The value under `key` read as a `String`.
    pub fn get_string(&self, key: &str) -> (r: Option<String>)
        ensures
            r matches Some(s) ==> self.view().contains_key(key@) && json_as_string(
                self.view()[key@],
            ) == Some(s@),
            r is None ==> !self.view().contains_key(key@) || json_as_string(self.view()[key@])
                is None,
    {
        match self.get(key) {
            Some(v) => as_string(v),
            None => None,
        }
    }

    /// The boolean setting `key`, or `default` when it is missing or not a boolean.
    pub fn config_bool(&self, key: &str, default: bool) -> (r: bool)
        ensures
            r == (if self.view().contains_key(key@) && json_as_bool(self.view()[key@]) is Some {
                json_as_bool(self.view()[key@]).unwrap()
            } else {
                default
            }),
    {
        match self.get_bool(key) {
            Some(b) => b,
            None => default,
        }
    }

    /// The string setting `key`, or `default` when it is missing or not a string.
    pub fn config_string(&self, key: &str, default: String) -> (r: String)
        ensures
            self.view().contains_key(key@) && json_as_string(self.view()[key@]) is Some ==> r@
                == json_as_string(self.view()[key@]).unwrap(),
            !(self.view().contains_key(key@) && json_as_string(self.view()[key@]) is Some) ==> r
                == default,
    {
        match self.get_string(key) {
            Some(s) => s,
            None => default,
        }
    }

    /// After a request to install (`true`) or remove the OBS capture plugin: a removal switches
    /// the `obsCapturePlugin` setting off; an installation leaves the settings as they are.
    pub fn note_plugin_request(&mut self, install: bool)
        ensures
            install ==> final(self).view() == old(self).view(),
            !install ==> final(self).view() == old(self).view().insert(
                "obsCapturePlugin"@,
                Json::Bool(false),
            ),
    {
        if !install {
            self.set("obsCapturePlugin", Json::Bool(false));
        }
    }

    /// Completes the store with each default whose name it does not have yet.
    pub fn merge_defaults(&mut self, defaults: Vec<(String, Json)>)
        ensures
            final(self).view() == or_insert_all(old(self).view(), defaults@),
    {
        let ghost d = defaults@;
        let mut rest = defaults;
        let mut reversed: Vec<(String, Json)> = Vec::new();
        while rest.len() > 0
            invariant
                rest@ == d.take(rest.len() as int),
                reversed.len() + rest.len() == d.len(),
                forall|i: int| 0 <= i < reversed.len() ==> reversed@[i] == d[d.len() - 1 - i],
            decreases rest.len(),
        {
            let ghost r0 = rest@;
            let e = rest.pop().unwrap();
            reversed.push(e);
            assert(rest@ =~= d.take(rest.len() as int));
        }
        let ghost start = self.view();
        let ghost mut done: Seq<(String, Json)> = Seq::empty();
        while reversed.len() > 0
            invariant
                done == d.take(done.len() as int),
                done.len() + reversed.len() == d.len(),
                forall|i: int| 0 <= i < reversed.len() ==> reversed@[i] == d[d.len() - 1 - i],
                self.view() == or_insert_all(start, done),
            decreases reversed.len(),
        {
            let e = reversed.pop().unwrap();
            proof {
                assert(e == d[done.len() as int]);
                assert(done.push(e).drop_last() =~= done);
                assert(done.push(e) =~= d.take(done.len() as int + 1));
                done = done.push(e);
            }
            let (key, value) = e;
            if self.get(key.as_str()).is_none() {
                self.set(key.as_str(), value);
            }
        }
        assert(done =~= d);
    }
}

/// A list of entries, each stored in turn, as a settings store (what reading a JSON object
/// into a map gives: a later entry replaces an earlier one of the same name).
pub fn config_from_entries(entries: Vec<(String, Json)>) -> (r: Config)
    ensures
        r.view() == entries_map(entries@),
{
    let ghost d = entries@;
    let mut rest = entries;
    let mut reversed: Vec<(String, Json)> = Vec::new();
    while rest.len() > 0
        invariant
            rest@ == d.take(rest.len() as int),
            reversed.len() + rest.len() == d.len(),
            forall|i: int| 0 <= i < reversed.len() ==> reversed@[i] == d[d.len() - 1 - i],
        decreases rest.len(),
    {
        let e = rest.pop().unwrap();
        reversed.push(e);
        assert(rest@ =~= d.take(rest.len() as int));
    }
    let mut c = Config::new();
    let ghost mut done: Seq<(String, Json)> = Seq::empty();
    while reversed.len() > 0
        invariant
            done == d.take(done.len() as int),
            done.len() + reversed.len() == d.len(),
            forall|i: int| 0 <= i < reversed.len() ==> reversed@[i] == d[d.len() - 1 - i],
            c.view() == entries_map(done),
        decreases reversed.len(),
    {
        let e = reversed.pop().unwrap();
        proof {
            assert(e == d[done.len() as int]);
            assert(done.push(e).drop_last() =~= done);
            assert(done.push(e) =~= d.take(done.len() as int + 1));
            done = done.push(e);
        }
        let (key, value) = e;
        c.set(key.as_str(), value);
    }
    assert(done =~= d);
    c
}

/// The settings at start-up: the user's entries when the settings file could be read
/// (`user` is `Some`), otherwise the defaults, completed with every default that is
/// missing. `defaults` and `fallback` are the same defaults, read twice.
pub fn load_config(
    user: Option<Vec<(String, Json)>>,
    fallback: Vec<(String, Json)>,
    defaults: Vec<(String, Json)>,
) -> (r: Config)
    ensures
        user matches Some(u) ==> r.view() == or_insert_all(entries_map(u@), defaults@),
        user is None ==> r.view() == or_insert_all(entries_map(fallback@), defaults@),
{
    let mut c = match user {
        Some(u) => config_from_entries(u),
        None => config_from_entries(fallback),
    };
    c.merge_defaults(defaults);
    c
}

/// Merging entries whose names are all present changes nothing.
pub proof fn lemma_or_insert_all_present(m: Map<Seq<char>, Json>, d: Seq<(String, Json)>)
    requires
        forall|i: int| 0 <= i < d.len() ==> m.contains_key(#[trigger] d[i].0@),
    ensures
        or_insert_all(m, d) == m,
    decreases d.len(),
{
    if d.len() > 0 {
        let t = d.drop_last();
        assert forall|i: int| 0 <= i < t.len() implies m.contains_key(#[trigger] t[i].0@) by {
            assert(t[i] == d[i]);
        }
        lemma_or_insert_all_present(m, t);
        assert(m.contains_key(d.last().0@));
    }
}

/// Every name of a list of entries has a value in the map the list builds.
pub proof fn lemma_entries_map_has_keys(s: Seq<(String, Json)>)
    ensures
        forall|i: int| 0 <= i < s.len() ==> entries_map(s).contains_key(#[trigger] s[i].0@),
    decreases s.len(),
{
    if s.len() > 0 {
        let t = s.drop_last();
        lemma_entries_map_has_keys(t);
        assert forall|i: int| 0 <= i < s.len() implies entries_map(s).contains_key(#[trigger] s[i].0@) by {
            if i < s.len() - 1 {
                assert(t[i] == s[i]);
                assert(entries_map(t).contains_key(t[i].0@));
            }
        }
    }
}

/// The settings at start-up from the settings file's text: the file's members when the text
/// is a JSON object, otherwise the defaults, completed with every default that is missing.
pub fn load_settings(settings_text: &str, defaults: Vec<(String, Json)>) -> (r: Config)
    ensures
        json_value(settings_text@) matches Some(Json::Object(fields)) ==> r.view() == or_insert_all(
            entries_map(fields@),
            defaults@,
        ),
        !(json_value(settings_text@) matches Some(Json::Object(_))) ==> r.view() == or_insert_all(
            entries_map(defaults@),
            defaults@,
        ),
{
    match parse_json(settings_text) {
        Some(Json::Object(fields)) => {
            let mut c = config_from_entries(fields);
            c.merge_defaults(defaults);
            c
        },
        _ => {
            proof {
                lemma_entries_map_has_keys(defaults@);
                lemma_or_insert_all_present(entries_map(defaults@), defaults@);
            }
            config_from_entries(defaults)
        },
    }
}

} // verus!
