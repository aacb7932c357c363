//! Machine words and UTF-16 text as the Win32 API hands them over.
use vstd::prelude::*;
use crate::text::chars_of;

verus! {

/// The low 16 bits of a message parameter.
pub fn LOWORD(l: usize) -> (r: usize)
    ensures
        r == l % 0x10000,
{
    assert(l & 0xffff == l % 0x10000) by (bit_vector);
    l & 0xffff
}

/// Bits 16..32 of a message parameter.
pub fn HIWORD(l: usize) -> (r: usize)
    ensures
        r == (l / 0x10000) % 0x10000,
{
    assert((l >> 16) & 0xffff == (l / 0x10000) % 0x10000) by (bit_vector);
    (l >> 16) & 0xffff
}

/// The UTF-16 code units of one character.
pub open spec fn utf16_char(c: char) -> Seq<u16> {
    let u = c as u32;
    if u < 0x10000 {
        seq![u as u16]
    } else {
        seq![(0xd800 + (u - 0x10000) / 0x400) as u16, (0xdc00 + (u - 0x10000) % 0x400) as u16]
    }
}

/// The UTF-16 code units of a string (what `str::encode_utf16` yields).
pub open spec fn utf16(s: Seq<char>) -> Seq<u16>
    decreases s.len(),
{
    if s.len() == 0 {
        Seq::empty()
    } else {
        utf16(s.drop_last()) + utf16_char(s.last())
    }
}

/// A leading (high) surrogate code unit.
pub open spec fn is_high_surrogate(u: u16) -> bool {
    0xd800 <= u <= 0xdbff
}

/// A trailing (low) surrogate code unit.
pub open spec fn is_low_surrogate(u: u16) -> bool {
    0xdc00 <= u <= 0xdfff
}

/// The characters that UTF-16 code units decode to when each unpaired surrogate becomes
/// U+FFFD (what `String::from_utf16_lossy` returns): a high surrogate followed by a low one
/// is one character, any other surrogate is U+FFFD, every other unit is itself.
pub open spec fn utf16_lossy(units: Seq<u16>) -> Seq<char>
    decreases units.len(),
{
    if units.len() == 0 {
        Seq::empty()
    } else if units.len() > 1 && is_high_surrogate(units[0]) && is_low_surrogate(units[1]) {
        seq![(0x10000 + (units[0] - 0xd800) * 0x400 + (units[1] - 0xdc00)) as char] + utf16_lossy(
            units.skip(2),
        )
    } else if is_high_surrogate(units[0]) || is_low_surrogate(units[0]) {
        seq!['\u{fffd}'] + utf16_lossy(units.skip(1))
    } else {
        seq![units[0] as char] + utf16_lossy(units.skip(1))
    }
}

/// The UTF-16 form of a string is that of its first character followed by that of the rest.
pub proof fn lemma_utf16_first(s: Seq<char>)
    requires
        s.len() > 0,
    ensures
        utf16(s) == utf16_char(s[0]) + utf16(s.drop_first()),
    decreases s.len(),
{
    if s.len() == 1 {
        assert(s.drop_last() =~= Seq::<char>::empty());
        assert(s.drop_first() =~= Seq::<char>::empty());
        assert(utf16(s) =~= utf16_char(s[0]));
    } else {
        let t = s.drop_last();
        lemma_utf16_first(t);
        assert(t.drop_first() =~= s.drop_first().drop_last());
        assert(s.drop_first().last() == s.last());
        assert(utf16(s) =~= utf16_char(s[0]) + utf16(s.drop_first()));
    }
}

/// Decoding the UTF-16 form of one character, followed by any code units, gives the
/// character followed by what the rest decodes to.
pub proof fn lemma_utf16_lossy_char(c: char, rest: Seq<u16>)
    ensures
        utf16_lossy(utf16_char(c) + rest) == seq![c] + utf16_lossy(rest),
{
    let u = c as u32;
    let x = utf16_char(c) + rest;
    if u < 0x10000 {
        assert(x[0] == u as u16);
        assert(!is_high_surrogate(x[0]) && !is_low_surrogate(x[0]));
        assert(x.skip(1) =~= rest);
        assert((u as u16) as char == c);
    } else {
        let q = (u - 0x10000) / 0x400;
        let m = (u - 0x10000) % 0x400;
        assert(q <= 0x3ff);
        assert(x[0] == (0xd800 + q) as u16);
        assert(x[1] == (0xdc00 + m) as u16);
        assert(x.len() > 1);
        assert(x.skip(2) =~= rest);
        assert(0x10000 + q * 0x400 + m == u);
        assert((0x10000 + (x[0] - 0xd800) * 0x400 + (x[1] - 0xdc00)) as char == c);
    }
}

/// The UTF-16 form of a string decodes back to the string.
pub proof fn lemma_utf16_round_trip(s: Seq<char>)
    ensures
        utf16_lossy(utf16(s)) == s,
    decreases s.len(),
{
    if s.len() > 0 {
        lemma_utf16_first(s);
        lemma_utf16_lossy_char(s[0], utf16(s.drop_first()));
        lemma_utf16_round_trip(s.drop_first());
        assert(seq![s[0]] + s.drop_first() =~= s);
    }
}

/// Appends the UTF-16 code units of `s` to `out`.
fn push_utf16(out: &mut Vec<u16>, s: &str)
    ensures
        final(out)@ == old(out)@ + utf16(s@),
{
    let cs = chars_of(s);
    let mut i: usize = 0;
    while i < cs.len()
        invariant
            i <= cs.len(),
            cs@ == s@,
            out@ == old(out)@ + utf16(cs@.take(i as int)),
        decreases cs.len() - i,
    {
        let c = cs[i];
        let u = c as u32;
        assert(cs@.take(i + 1).drop_last() =~= cs@.take(i as int));
        if u < 0x10000 {
            out.push(u as u16);
        } else {
            out.push((0xd800 + (u - 0x10000) / 0x400) as u16);
            out.push((0xdc00 + (u - 0x10000) % 0x400) as u16);
        }
        assert(out@ =~= old(out)@ + utf16(cs@.take(i + 1)));
        i = i + 1;
    }
    assert(cs@.take(cs.len() as int) =~= cs@);
}

/// The UTF-16 form of `s` followed by a terminating zero, as wide Win32 functions take it.
pub fn create_utf_string(s: &str) -> (r: Vec<u16>)
    ensures
        r@ == utf16(s@).push(0),
{
    let mut v: Vec<u16> = Vec::new();
    push_utf16(&mut v, s);
    v.push(0);
    assert(v@ =~= utf16(s@).push(0));
    v
}

/// The first index at or after `i` of a zero in `units`, or its length.
pub open spec fn nul_from(units: Seq<u16>, i: int) -> int
    decreases units.len() - i,
{
    if i < 0 || i >= units.len() || units[i] == 0 {
        i
    } else {
        nul_from(units, i + 1)
    }
}

/// The first index of a zero in `units`, or its length.
pub open spec fn nul_index(units: Seq<u16>) -> int {
    nul_from(units, 0)
}

/// The length of a buffer's text before its first zero.
fn nul_position(units: &[u16]) -> (r: usize)
    ensures
        r <= units.len(),
        r == nul_index(units@),
{
    let mut i: usize = 0;
    while i < units.len() && units[i] != 0
        invariant
            i <= units.len(),
            nul_from(units@, i as int) == nul_index(units@),
        decreases units.len() - i,
    {
        i = i + 1;
    }
    i
}

/// `pat` occurs in the code units `s`.
pub open spec fn units_contain(s: Seq<u16>, pat: Seq<u16>) -> bool {
    exists|i: int| 0 <= i && i + pat.len() <= s.len() && #[trigger] s.subrange(i, i + pat.len()) == pat
}

/// `pat` occurs at `i` in `s`.
fn units_at(s: &[u16], pat: &[u16], i: usize) -> (r: bool)
    requires
        i + pat.len() <= s.len(),
    ensures
        r == (s@.subrange(i as int, i + pat.len()) == pat@),
{
    let mut k: usize = 0;
    while k < pat.len()
        invariant
            i + pat.len() <= s.len(),
            k <= pat.len(),
            forall|j: int| 0 <= j < k ==> s@[i + j] == pat@[j],
        decreases pat.len() - k,
    {
        if s[i + k] != pat[k] {
            assert(s@.subrange(i as int, i + pat.len())[k as int] != pat@[k as int]);
            return false;
        }
        k = k + 1;
    }
    assert(s@.subrange(i as int, i + pat.len()) =~= pat@);
    true
}

/// A class or process name in a wide buffer contains `target`: the text before the
/// buffer's first zero has the UTF-16 form of `target` somewhere in it. A target is at
/// most 64 code units long and not empty (a longer one does not fit the fixed buffer the
/// windows are compared with, and an empty one has no windows to compare).
pub fn wide_name_contains(units: &[u16], target: &str) -> (r: bool)
    requires
        0 < utf16(target@).len() <= 64,
    ensures
        r == units_contain(units@.take(nul_index(units@)), utf16(target@)),
{
    let len = nul_position(units);
    let mut target_wide: Vec<u16> = Vec::new();
    push_utf16(&mut target_wide, target);
    let tl = target_wide.len();
    let ghost hay = units@.take(len as int);
    if tl > len {
        assert forall|i: int| 0 <= i && i + tl <= hay.len() implies #[trigger] hay.subrange(i, i + tl)
            != target_wide@ by {}
        return false;
    }
    let mut i: usize = 0;
    while i <= len - tl
        invariant
            tl <= len,
            len == nul_index(units@),
            tl == target_wide@.len(),
            target_wide@ == utf16(target@),
            len <= units.len(),
            hay == units@.take(len as int),
            forall|j: int| 0 <= j < i && j + tl <= len ==> #[trigger] hay.subrange(j, j + tl) != target_wide@,
        decreases len + 1 - i,
    {
        if units_at(units, target_wide.as_slice(), i) {
            assert(hay.subrange(i as int, i + tl) =~= units@.subrange(i as int, i + tl));
            return true;
        }
        assert(hay.subrange(i as int, i + tl) =~= units@.subrange(i as int, i + tl));
        if i == len - tl {
            return false;
        }
        i = i + 1;
    }
    false
}

/// A process or module name in a wide buffer matches `expected` exactly: the buffer holds
/// the UTF-16 form of `expected` followed by a zero.
pub fn name_matches(name: &[u16], expected: &str) -> (r: bool)
    ensures
        r == (name@.len() > utf16(expected@).len() && name@.take(utf16(expected@).len() as int)
            == utf16(expected@) && name@[utf16(expected@).len() as int] == 0),
{
    let mut exp: Vec<u16> = Vec::new();
    push_utf16(&mut exp, expected);
    if name.len() <= exp.len() {
        return false;
    }
    let same = units_at(name, exp.as_slice(), 0);
    assert(name@.subrange(0, exp.len() as int) =~= name@.take(exp.len() as int));
    same && name[exp.len()] == 0
}

/// The ASCII lower case of the low byte of a code unit, as the priority setter compares it.
pub open spec fn low_byte_lower(u: u16) -> u8 {
    let b = (u % 256) as u8;
    if 65 <= b <= 90 {
        (b + 32) as u8
    } else {
        b
    }
}

/// The bytes of `webview2`.
pub open spec fn webview2_bytes() -> Seq<u8> {
    seq![119u8, 101u8, 98u8, 118u8, 105u8, 101u8, 119u8, 50u8]
}

/// The code units from `i` spell `webview2`, compared by the ASCII lower case of each low
/// byte.
pub open spec fn webview2_at(exe: Seq<u16>, i: int) -> bool {
    forall|k: int| 0 <= k < 8 ==> low_byte_lower(#[trigger] exe[i + k]) == webview2_bytes()[k]
}

/// An executable name in a wide buffer contains `webview2`, compared by the ASCII lower
/// case of each code unit's low byte, in the text before the buffer's first zero.
pub fn is_webview_process(exe: &[u16]) -> (r: bool)
    ensures
        r == exists|i: int| 0 <= i && i + 8 <= nul_index(exe@) && #[trigger] webview2_at(exe@, i),
{
    let len = nul_position(exe);
    let target: [u8; 8] = [119, 101, 98, 118, 105, 101, 119, 50];
    assert(target@ =~= webview2_bytes());
    if len < 8 {
        return false;
    }
    let mut i: usize = 0;
    while i <= len - 8
        invariant
            8 <= len <= exe.len(),
            len == nul_index(exe@),
            target@ == webview2_bytes(),
            forall|j: int| 0 <= j < i && j + 8 <= len ==> !#[trigger] webview2_at(exe@, j),
        decreases len + 1 - i,
    {
        let mut k: usize = 0;
        let mut all = true;
        while k < 8
            invariant
                i + 8 <= len <= exe.len(),
                k <= 8,
                target@ == webview2_bytes(),
                all == forall|m: int| 0 <= m < k ==> low_byte_lower(#[trigger] exe@[i + m]) == webview2_bytes()[m],
            decreases 8 - k,
        {
            let b = (exe[i + k] % 256) as u8;
            let lower: u8 = if 65 <= b && b <= 90 {
                b + 32
            } else {
                b
            };
            assert(lower == low_byte_lower(exe@[i + k]));
            if lower != target[k] {
                all = false;
            }
            k = k + 1;
        }
        if all {
            assert(webview2_at(exe@, i as int));
            return true;
        }
        if i == len - 8 {
            return false;
        }
        i = i + 1;
    }
    false
}

} // verus!
