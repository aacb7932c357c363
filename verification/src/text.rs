//! Text helpers over the character sequences that `String` and `&str` stand for:
//! searching, splitting, trimming, and the decimal forms of integers.
use vstd::prelude::*;

verus! {

broadcast use vstd::string::group_string_axioms;

// ---------------------------------------------------------------------------
// Specifications
// ---------------------------------------------------------------------------

/// `pat` occurs in `s` starting at index `i`.
pub open spec fn occurs_at(s: Seq<char>, pat: Seq<char>, i: int) -> bool {
    &&& 0 <= i
    &&& i + pat.len() <= s.len()
    &&& s.subrange(i, i + pat.len()) == pat
}

/// `pat` occurs somewhere in `s` (what `str::contains` answers).
pub open spec fn contains(s: Seq<char>, pat: Seq<char>) -> bool {
    exists|i: int| occurs_at(s, pat, i)
}

/// `s` begins with `pat`.
pub open spec fn starts_with(s: Seq<char>, pat: Seq<char>) -> bool {
    pat.len() <= s.len() && s.take(pat.len() as int) == pat
}

/// The first index at or after `i` where `pat` occurs in `s`.
pub open spec fn find_from(s: Seq<char>, pat: Seq<char>, i: int) -> Option<int>
    decreases s.len() + 1 - i,
{
    if i < 0 || i + pat.len() > s.len() {
        None
    } else if occurs_at(s, pat, i) {
        Some(i)
    } else {
        find_from(s, pat, i + 1)
    }
}

/// The pieces that `str::split(sep)` yields for a non-empty separator: the text between
/// non-overlapping occurrences found from left to right.
pub open spec fn split_spec(s: Seq<char>, sep: Seq<char>) -> Seq<Seq<char>>
    decreases s.len(),
{
    if sep.len() == 0 {
        seq![s]
    } else {
        match find_from(s, sep, 0) {
            Some(i) => {
                proof {
                    lemma_find_from_bounds(s, sep, 0);
                }
                seq![s.take(i)] + split_spec(s.skip(i + sep.len()), sep)
            },
            None => seq![s],
        }
    }
}

/// The characters that have the Unicode `White_Space` property (what `char::is_whitespace`
/// tests).
pub open spec fn is_whitespace(c: char) -> bool {
    let u = c as u32;
    ||| 0x09 <= u <= 0x0d
    ||| u == 0x20
    ||| u == 0x85
    ||| u == 0xa0
    ||| u == 0x1680
    ||| 0x2000 <= u <= 0x200a
    ||| u == 0x2028
    ||| u == 0x2029
    ||| u == 0x202f
    ||| u == 0x205f
    ||| u == 0x3000
}

/// `s` without its leading whitespace.
pub open spec fn trim_start(s: Seq<char>) -> Seq<char>
    decreases s.len(),
{
    if s.len() > 0 && is_whitespace(s[0]) {
        trim_start(s.drop_first())
    } else {
        s
    }
}

/// `s` without its trailing whitespace.
pub open spec fn trim_end(s: Seq<char>) -> Seq<char>
    decreases s.len(),
{
    if s.len() > 0 && is_whitespace(s.last()) {
        trim_end(s.drop_last())
    } else {
        s
    }
}

/// `s` without leading and trailing whitespace (what `str::trim` returns).
pub open spec fn trim(s: Seq<char>) -> Seq<char> {
    trim_end(trim_start(s))
}

/// An ASCII decimal digit.
pub open spec fn is_digit(c: char) -> bool {
    '0' <= c && c <= '9'
}

/// The value of an ASCII digit.
pub open spec fn digit_value(c: char) -> nat {
    ((c as u32) - 48) as nat
}

/// The character of a digit value below ten.
pub open spec fn digit_char(d: nat) -> char {
    ((d + 48) as u8) as char
}

/// Every character of `s` is an ASCII digit.
pub open spec fn all_digits(s: Seq<char>) -> bool {
    forall|i: int| 0 <= i < s.len() ==> is_digit(#[trigger] s[i])
}

/// The number that a string of decimal digits denotes.
pub open spec fn digits_value(s: Seq<char>) -> nat
    decreases s.len(),
{
    if s.len() == 0 {
        0
    } else {
        digits_value(s.drop_last()) * 10 + digit_value(s.last())
    }
}

/// The shortest decimal form of `n`.
pub open spec fn decimal(n: nat) -> Seq<char>
    decreases n,
{
    if n < 10 {
        seq![digit_char(n)]
    } else {
        decimal(n / 10).push(digit_char(n % 10))
    }
}

/// What `str::parse::<bool>` gives.
pub open spec fn parse_bool_spec(s: Seq<char>) -> Option<bool> {
    if s == seq!['t', 'r', 'u', 'e'] {
        Some(true)
    } else if s == seq!['f', 'a', 'l', 's', 'e'] {
        Some(false)
    } else {
        None
    }
}

/// What `str::parse::<u64>` gives: an optional `+`, then at least one decimal digit and
/// nothing else, and a value that fits.
pub open spec fn parse_u64_spec(s: Seq<char>) -> Option<u64> {
    let body = if s.len() > 0 && s[0] == '+' { s.drop_first() } else { s };
    if body.len() > 0 && all_digits(body) && digits_value(body) <= u64::MAX {
        Some(digits_value(body) as u64)
    } else {
        None
    }
}

/// What `str::parse::<i64>` gives: an optional sign, then at least one decimal digit and
/// nothing else, and a value that fits.
pub open spec fn parse_i64_spec(s: Seq<char>) -> Option<i64> {
    let negative = s.len() > 0 && s[0] == '-';
    let body = if s.len() > 0 && (s[0] == '+' || s[0] == '-') { s.drop_first() } else { s };
    if body.len() > 0 && all_digits(body) {
        let v = digits_value(body) as int;
        if negative && v <= 0x8000_0000_0000_0000 {
            Some((-v) as i64)
        } else if !negative && v <= i64::MAX {
            Some(v as i64)
        } else {
            None
        }
    } else {
        None
    }
}

// ---------------------------------------------------------------------------
// Lemmas
// ---------------------------------------------------------------------------

/// A search result lies inside the text and is a real occurrence, and nothing before it
/// (from the starting point) is one.
pub proof fn lemma_find_from_bounds(s: Seq<char>, pat: Seq<char>, i: int)
    requires
        0 <= i,
    ensures
        find_from(s, pat, i) matches Some(j) ==> {
            &&& i <= j
            &&& occurs_at(s, pat, j)
            &&& forall|k: int| i <= k < j ==> !occurs_at(s, pat, k)
        },
        find_from(s, pat, i) is None ==> forall|k: int| i <= k ==> !occurs_at(s, pat, k),
    decreases s.len() + 1 - i,
{
    if i + pat.len() > s.len() {
    } else if occurs_at(s, pat, i) {
    } else {
        lemma_find_from_bounds(s, pat, i + 1);
    }
}

/// The value of a digit string grows with each digit added.
pub proof fn lemma_digits_value_prefix(s: Seq<char>, i: int)
    requires
        0 <= i <= s.len(),
    ensures
        digits_value(s.take(i)) <= digits_value(s),
    decreases s.len() - i,
{
    if i < s.len() {
        lemma_digits_value_prefix(s, i + 1);
        assert(s.take(i + 1).drop_last() =~= s.take(i));
    } else {
        assert(s.take(i) =~= s);
    }
}

/// A digit's character is a digit and reads back as the digit.
pub proof fn lemma_digit_char(d: nat)
    requires
        d < 10,
    ensures
        is_digit(digit_char(d)),
        digit_value(digit_char(d)) == d,
{
    assert(((d + 48) as u8) as char as u32 == d + 48);
}

/// The decimal form is made of digits and reads back as the number.
pub proof fn lemma_decimal_digits(n: nat)
    ensures
        decimal(n).len() > 0,
        all_digits(decimal(n)),
        digits_value(decimal(n)) == n,
    decreases n,
{
    lemma_digit_char(n % 10);
    if n < 10 {
        assert(decimal(n).drop_last() =~= Seq::<char>::empty());
        assert(digits_value(Seq::<char>::empty()) == 0);
    } else {
        lemma_decimal_digits(n / 10);
        assert(decimal(n).drop_last() =~= decimal(n / 10));
        assert(digits_value(decimal(n)) == digits_value(decimal(n / 10)) * 10 + digit_value(
            digit_char(n % 10),
        ));
        assert((n / 10) * 10 + n % 10 == n);
        assert forall|k: int| 0 <= k < decimal(n).len() implies is_digit(#[trigger] decimal(n)[k]) by {
            if k < decimal(n).len() - 1 {
                assert(decimal(n)[k] == decimal(n / 10)[k]);
            }
        }
    }
}

// ---------------------------------------------------------------------------
// Conversions between strings and character vectors
// ---------------------------------------------------------------------------

/// Appends one character to a `String` (`String::push`).
#[verifier::external_body]
fn push_char(s: &mut String, c: char)
    ensures
        final(s)@ == old(s)@.push(c),
{
    s.push(c);
}

/// The characters of `s`, in order.
pub fn chars_of(s: &str) -> (r: Vec<char>)
    ensures
        r@ == s@,
{
    let mut r: Vec<char> = Vec::new();
    for c in it: s.chars()
        invariant
            r@ == it.seq().take(it.index() as int),
            it.seq() == s@,
    {
        r.push(c);
    }
    r
}

/// The string made of the characters of `v`.
pub fn string_of(v: &[char]) -> (r: String)
    ensures
        r@ == v@,
{
    let mut r = String::new();
    let mut i: usize = 0;
    while i < v.len()
        invariant
            i <= v.len(),
            r@ == v@.take(i as int),
        decreases v.len() - i,
    {
        push_char(&mut r, v[i]);
        assert(v@.take(i + 1) =~= v@.take(i as int).push(v@[i as int]));
        i = i + 1;
    }
    assert(v@.take(v.len() as int) =~= v@);
    r
}

/// Appends the characters of `t` to `v`.
pub fn extend_chars(v: &mut Vec<char>, t: &[char])
    ensures
        final(v)@ == old(v)@ + t@,
{
    let mut i: usize = 0;
    while i < t.len()
        invariant
            i <= t.len(),
            v@ == old(v)@ + t@.take(i as int),
        decreases t.len() - i,
    {
        v.push(t[i]);
        assert(t@.take(i + 1) =~= t@.take(i as int).push(t@[i as int]));
        i = i + 1;
    }
    assert(t@.take(t.len() as int) =~= t@);
}

/// The characters `v[from..to]`.
pub fn slice_chars(v: &[char], from: usize, to: usize) -> (r: Vec<char>)
    requires
        from <= to <= v.len(),
    ensures
        r@ == v@.subrange(from as int, to as int),
{
    let mut r: Vec<char> = Vec::new();
    let mut i: usize = from;
    while i < to
        invariant
            from <= i <= to <= v.len(),
            r@ == v@.subrange(from as int, i as int),
        decreases to - i,
    {
        r.push(v[i]);
        assert(v@.subrange(from as int, i + 1) =~= v@.subrange(from as int, i as int).push(
            v@[i as int],
        ));
        i = i + 1;
    }
    r
}

/// The two character sequences are equal.
pub fn same_chars(a: &[char], b: &[char]) -> (r: bool)
    ensures
        r == (a@ == b@),
{
    if a.len() != b.len() {
        return false;
    }
    let mut i: usize = 0;
    while i < a.len()
        invariant
            a.len() == b.len(),
            i <= a.len(),
            a@.take(i as int) == b@.take(i as int),
        decreases a.len() - i,
    {
        if a[i] != b[i] {
            assert(a@[i as int] != b@[i as int]);
            return false;
        }
        assert(a@.take(i + 1) =~= a@.take(i as int).push(a@[i as int]));
        assert(b@.take(i + 1) =~= b@.take(i as int).push(b@[i as int]));
        i = i + 1;
    }
    assert(a@.take(a.len() as int) =~= a@);
    assert(b@.take(b.len() as int) =~= b@);
    true
}

/// The string `s` has exactly the characters `t`.
pub fn str_is(s: &str, t: &str) -> (r: bool)
    ensures
        r == (s@ == t@),
{
    let a = chars_of(s);
    let b = chars_of(t);
    same_chars(a.as_slice(), b.as_slice())
}

// ---------------------------------------------------------------------------
// Searching and splitting
// ---------------------------------------------------------------------------

/// `pat` occurs in `s` at index `i`.
pub fn occurs_at_exec(s: &[char], pat: &[char], i: usize) -> (r: bool)
    ensures
        r == occurs_at(s@, pat@, i as int),
{
    if pat.len() > s.len() || i > s.len() - pat.len() {
        return false;
    }
    let mut k: usize = 0;
    while k < pat.len()
        invariant
            i + pat.len() <= s.len(),
            k <= pat.len(),
            forall|j: int| 0 <= j < k ==> s@[i + j] == pat@[j],
        decreases pat.len() - k,
    {
        if s[i + k] != pat[k] {
            assert(s@.subrange(i as int, i + pat.len())[k as int] != pat@[k as int]);
            return false;
        }
        k = k + 1;
    }
    assert(s@.subrange(i as int, i + pat.len()) =~= pat@);
    true
}

/// The first index at or after `start` where `pat` occurs in `s`.
pub fn find_from_exec(s: &[char], pat: &[char], start: usize) -> (r: Option<usize>)
    ensures
        r matches Some(j) ==> find_from(s@, pat@, start as int) == Some(j as int),
        r is None ==> find_from(s@, pat@, start as int) is None,
{
    if pat.len() > s.len() || start > s.len() - pat.len() {
        return None;
    }
    let mut i: usize = start;
    while i <= s.len() - pat.len()
        invariant
            pat.len() <= s.len(),
            start <= i <= s.len() - pat.len() + 1,
            find_from(s@, pat@, start as int) == find_from(s@, pat@, i as int),
        decreases s.len() - pat.len() + 1 - i,
    {
        if occurs_at_exec(s, pat, i) {
            return Some(i);
        }
        if i == s.len() - pat.len() {
            assert(find_from(s@, pat@, i as int + 1) is None);
            return None;
        }
        i = i + 1;
    }
    None
}

/// `pat` occurs somewhere in `s`.
pub fn contains_exec(s: &[char], pat: &[char]) -> (r: bool)
    ensures
        r == contains(s@, pat@),
{
    proof {
        lemma_find_from_bounds(s@, pat@, 0);
    }
    match find_from_exec(s, pat, 0) {
        Some(_) => true,
        None => false,
    }
}

/// `s` begins with `pat`.
pub fn starts_with_exec(s: &[char], pat: &[char]) -> (r: bool)
    ensures
        r == starts_with(s@, pat@),
{
    let r = occurs_at_exec(s, pat, 0);
    assert(r ==> s@.subrange(0, pat.len() as int) =~= s@.take(pat.len() as int));
    assert(starts_with(s@, pat@) ==> s@.subrange(0, pat.len() as int) =~= s@.take(
        pat.len() as int,
    ));
    r
}

/// The views of a list of character vectors.
pub open spec fn views(v: Seq<Vec<char>>) -> Seq<Seq<char>> {
    v.map_values(|p: Vec<char>| p@)
}

/// The pieces of `s` between the occurrences of the non-empty separator `sep`
/// (what `str::split` yields).
pub fn split_exec(s: &[char], sep: &[char]) -> (r: Vec<Vec<char>>)
    requires
        sep.len() > 0,
    ensures
        views(r@) == split_spec(s@, sep@),
        r.len() >= 1,
{
    let mut pieces: Vec<Vec<char>> = Vec::new();
    let mut rest: Vec<char> = slice_chars(s, 0, s.len());
    assert(s@.subrange(0, s.len() as int) =~= s@);
    loop
        invariant
            sep.len() > 0,
            views(pieces@) + split_spec(rest@, sep@) == split_spec(s@, sep@),
        decreases rest.len(),
    {
        proof {
            lemma_find_from_bounds(rest@, sep@, 0);
        }
        match find_from_exec(rest.as_slice(), sep, 0) {
            Some(i) => {
                let piece = slice_chars(rest.as_slice(), 0, i);
                let next = slice_chars(rest.as_slice(), i + sep.len(), rest.len());
                assert(piece@ =~= rest@.take(i as int));
                assert(next@ =~= rest@.skip(i + sep.len()));
                let ghost old_pieces = pieces@;
                pieces.push(piece);
                assert(views(pieces@) =~= views(old_pieces).push(piece@));
                assert(views(pieces@) + split_spec(next@, sep@) =~= views(old_pieces) + split_spec(
                    rest@,
                    sep@,
                ));
                rest = next;
            },
            None => {
                let ghost old_pieces = pieces@;
                pieces.push(rest);
                assert(views(pieces@) =~= views(old_pieces).push(rest@));
                assert(views(pieces@) =~= split_spec(s@, sep@));
                return pieces;
            },
        }
    }
}

// ---------------------------------------------------------------------------
// Trimming
// ---------------------------------------------------------------------------

/// The character has the Unicode `White_Space` property.
pub fn is_whitespace_exec(c: char) -> (r: bool)
    ensures
        r == is_whitespace(c),
{
    let u = c as u32;
    (0x09 <= u && u <= 0x0d) || u == 0x20 || u == 0x85 || u == 0xa0 || u == 0x1680 || (0x2000
        <= u && u <= 0x200a) || u == 0x2028 || u == 0x2029 || u == 0x202f || u == 0x205f || u
        == 0x3000
}

/// `s` without leading and trailing whitespace.
pub fn trim_exec(s: &[char]) -> (r: Vec<char>)
    ensures
        r@ == trim(s@),
{
    let mut i: usize = 0;
    assert(s@.skip(0) =~= s@);
    while i < s.len() && is_whitespace_exec(s[i])
        invariant
            i <= s.len(),
            trim_start(s@.skip(i as int)) == trim_start(s@),
        decreases s.len() - i,
    {
        assert(s@.skip(i as int).drop_first() =~= s@.skip(i + 1));
        i = i + 1;
    }
    let ghost t = s@.skip(i as int);
    assert(trim_start(s@) == t);
    let mut j: usize = s.len();
    assert(t.take(j - i) =~= t);
    while j > i && is_whitespace_exec(s[j - 1])
        invariant
            i <= j <= s.len(),
            t == s@.skip(i as int),
            trim_end(t.take(j - i)) == trim_end(t),
        decreases j,
    {
        assert(t.take(j - i).drop_last() =~= t.take(j - 1 - i));
        j = j - 1;
    }
    let r = slice_chars(s, i, j);
    assert(t.take(j - i) =~= r@);
    r
}

// ---------------------------------------------------------------------------
// Numbers
// ---------------------------------------------------------------------------

/// What `str::parse::<bool>` gives.
pub fn parse_bool(s: &[char]) -> (r: Option<bool>)
    ensures
        r == parse_bool_spec(s@),
{
    if s.len() == 4 && s[0] == 't' && s[1] == 'r' && s[2] == 'u' && s[3] == 'e' {
        assert(s@ =~= seq!['t', 'r', 'u', 'e']);
        Some(true)
    } else if s.len() == 5 && s[0] == 'f' && s[1] == 'a' && s[2] == 'l' && s[3] == 's' && s[4]
        == 'e' {
        assert(s@ =~= seq!['f', 'a', 'l', 's', 'e']);
        Some(false)
    } else {
        proof {
            if s@ == seq!['t', 'r', 'u', 'e'] {
                assert(s@[0] == 't' && s@[1] == 'r' && s@[2] == 'u' && s@[3] == 'e');
            }
            if s@ == seq!['f', 'a', 'l', 's', 'e'] {
                assert(s@[0] == 'f' && s@[1] == 'a' && s@[2] == 'l' && s@[3] == 's' && s@[4] == 'e');
            }
        }
        None
    }
}

/// The value of the digit string `s[from..]`, when it is made of digits only and fits
/// in a `u64`.
fn digits_to_u64(s: &[char], from: usize) -> (r: Option<u64>)
    requires
        from <= s.len(),
    ensures
        r matches Some(v) ==> all_digits(s@.skip(from as int)) && v == digits_value(
            s@.skip(from as int),
        ),
        r is None ==> !all_digits(s@.skip(from as int)) || digits_value(s@.skip(from as int))
            > u64::MAX,
{
    let ghost body = s@.skip(from as int);
    let mut acc: u64 = 0;
    let mut i: usize = from;
    while i < s.len()
        invariant
            from <= i <= s.len(),
            body == s@.skip(from as int),
            all_digits(body.take(i - from)),
            acc == digits_value(body.take(i - from)),
        decreases s.len() - i,
    {
        let c = s[i];
        assert(body[i - from] == c);
        if !('0' <= c && c <= '9') {
            assert(!is_digit(body[i - from]));
            return None;
        }
        let d = (c as u32 - 48) as u64;
        assert(body.take(i + 1 - from).drop_last() =~= body.take(i - from));
        assert(body.take(i + 1 - from).last() == c);
        proof {
            lemma_digits_value_prefix(body, i + 1 - from);
        }
        if acc > (u64::MAX - d) / 10 {
            assert(digits_value(body.take(i + 1 - from)) == acc * 10 + d);
            assert(acc * 10 + d > u64::MAX) by (nonlinear_arith)
                requires
                    acc > (u64::MAX - d) / 10,
                    d <= 9,
            ;
            return None;
        }
        assert(acc * 10 + d <= u64::MAX) by (nonlinear_arith)
            requires
                acc <= (u64::MAX - d) / 10,
                d <= 9,
        ;
        acc = acc * 10 + d;
        i = i + 1;
        assert forall|k: int| 0 <= k < body.take(i - from).len() implies is_digit(
            #[trigger] body.take(i - from)[k],
        ) by {
            if k < i - 1 - from {
                assert(body.take(i - from)[k] == body.take(i - 1 - from)[k]);
            }
        }
    }
    assert(body.take(i - from) =~= body);
    Some(acc)
}

/// What `str::parse::<u64>` gives.
pub fn parse_u64(s: &[char]) -> (r: Option<u64>)
    ensures
        r == parse_u64_spec(s@),
{
    let from: usize = if s.len() > 0 && s[0] == '+' {
        1
    } else {
        0
    };
    assert(from == 1 ==> s@.skip(1) =~= s@.drop_first());
    assert(from == 0 ==> s@.skip(0) =~= s@);
    if from >= s.len() {
        return None;
    }
    digits_to_u64(s, from)
}

/// What `str::parse::<i64>` gives.
pub fn parse_i64(s: &[char]) -> (r: Option<i64>)
    ensures
        r == parse_i64_spec(s@),
{
    let negative = s.len() > 0 && s[0] == '-';
    let from: usize = if s.len() > 0 && (s[0] == '+' || s[0] == '-') {
        1
    } else {
        0
    };
    assert(from == 1 ==> s@.skip(1) =~= s@.drop_first());
    assert(from == 0 ==> s@.skip(0) =~= s@);
    if from >= s.len() {
        return None;
    }
    match digits_to_u64(s, from) {
        None => None,
        Some(v) => {
            if negative {
                if v <= 0x8000_0000_0000_0000 {
                    if v == 0x8000_0000_0000_0000 {
                        Some(i64::MIN)
                    } else {
                        Some(-(v as i64))
                    }
                } else {
                    None
                }
            } else if v <= i64::MAX as u64 {
                Some(v as i64)
            } else {
                None
            }
        },
    }
}

/// The decimal form of `n`.
pub fn decimal_exec(n: u64) -> (r: Vec<char>)
    ensures
        r@ == decimal(n as nat),
    decreases n,
{
    let d = (n % 10) as u8;
    let c = (d + 48) as char;
    if n < 10 {
        let mut r: Vec<char> = Vec::new();
        r.push(c);
        assert(r@ =~= seq![digit_char(n as nat)]);
        r
    } else {
        let mut r = decimal_exec(n / 10);
        r.push(c);
        r
    }
}

} // verus!
