//! Character-level text helpers with exact specifications.

use vstd::prelude::*;

verus! {

/// Appends one character to a string (std `String::push`).
#[verifier::external_body]
pub(crate) fn push_char(s: &mut String, c: char)
    ensures
        final(s)@ == old(s)@.push(c),
{
    s.push(c);
}

/// The characters of `s`, in order.
pub fn chars_of(s: &str) -> (v: Vec<char>)
    ensures
        v@ == s@,
{
    let mut v: Vec<char> = Vec::new();
    for c in it: s.chars()
        invariant
            v@ == it.seq().take(it.index() as int),
            it.seq() == s@,
    {
        v.push(c);
    }
    v
}

/// A string made of the given characters.
pub fn string_of(v: &Vec<char>) -> (s: String)
    ensures
        s@ == v@,
{
    let mut s = String::new();
    let mut i: usize = 0;
    while i < v.len()
        invariant
            i <= v.len(),
            s@ == v@.take(i as int),
        decreases v.len() - i,
    {
        push_char(&mut s, v[i]);
        assert(v@.take(i + 1) == v@.take(i as int).push(v@[i as int]));
        i = i + 1;
    }
    assert(v@.take(v.len() as int) == v@);
    s
}

/// Whether two strings hold the same characters.
pub fn same_text(a: &str, b: &str) -> (r: bool)
    ensures
        r == (a@ == b@),
{
    let x = String::from_str(a);
    let y = String::from_str(b);
    x == y
}

} // verus!

verus! {

/// Which characters a trim removes.
#[derive(Clone, Copy, PartialEq, Eq, Debug)]
pub enum CharClass {
    /// Unicode `White_Space`, as `char::is_whitespace` defines it.
    Space,
    /// White space or one of the phrase marks `! ? . , ; :` and their
    /// full-width forms `，。！？`.
    SpaceOrMark,
}

/// `char::is_whitespace`: the characters with the Unicode `White_Space` property.
pub open spec fn is_space(c: char) -> bool {
    ||| ('\u{9}' <= c && c <= '\u{d}')
    ||| c == ' '
    ||| c == '\u{85}'
    ||| c == '\u{a0}'
    ||| c == '\u{1680}'
    ||| ('\u{2000}' <= c && c <= '\u{200a}')
    ||| c == '\u{2028}'
    ||| c == '\u{2029}'
    ||| c == '\u{202f}'
    ||| c == '\u{205f}'
    ||| c == '\u{3000}'
}

/// Sentence punctuation stripped around a phrase before lookup.
pub open spec fn is_phrase_mark(c: char) -> bool {
    ||| c == '!'
    ||| c == '?'
    ||| c == '.'
    ||| c == ','
    ||| c == ';'
    ||| c == ':'
    ||| c == '\u{ff0c}'
    ||| c == '\u{3002}'
    ||| c == '\u{ff01}'
    ||| c == '\u{ff1f}'
}

pub open spec fn in_class(c: char, k: CharClass) -> bool {
    match k {
        CharClass::Space => is_space(c),
        CharClass::SpaceOrMark => is_space(c) || is_phrase_mark(c),
    }
}

/// `s` without its leading characters of class `k`.
pub open spec fn drop_leading(s: Seq<char>, k: CharClass) -> Seq<char>
    decreases s.len(),
{
    if s.len() > 0 && in_class(s[0], k) {
        drop_leading(s.drop_first(), k)
    } else {
        s
    }
}

/// `s` without its trailing characters of class `k`.
pub open spec fn drop_trailing(s: Seq<char>, k: CharClass) -> Seq<char>
    decreases s.len(),
{
    if s.len() > 0 && in_class(s.last(), k) {
        drop_trailing(s.drop_last(), k)
    } else {
        s
    }
}

/// `s` without leading and trailing characters of class `k`.
pub open spec fn trim_class(s: Seq<char>, k: CharClass) -> Seq<char> {
    drop_trailing(drop_leading(s, k), k)
}

/// `str::trim`: `s` without leading and trailing white space.
pub open spec fn trimmed(s: Seq<char>) -> Seq<char> {
    trim_class(s, CharClass::Space)
}

/// Whether `c` belongs to class `k`.
pub fn class_has(c: char, k: CharClass) -> (r: bool)
    ensures
        r == in_class(c, k),
{
    let space = ('\u{9}' <= c && c <= '\u{d}') || c == ' ' || c == '\u{85}' || c == '\u{a0}'
        || c == '\u{1680}' || ('\u{2000}' <= c && c <= '\u{200a}') || c == '\u{2028}'
        || c == '\u{2029}' || c == '\u{202f}' || c == '\u{205f}' || c == '\u{3000}';
    match k {
        CharClass::Space => space,
        CharClass::SpaceOrMark => {
            space || c == '!' || c == '?' || c == '.' || c == ',' || c == ';' || c == ':'
                || c == '\u{ff0c}' || c == '\u{3002}' || c == '\u{ff01}' || c == '\u{ff1f}'
        },
    }
}

/// Removes the leading and trailing characters of class `k`.
pub fn trim_chars(v: &Vec<char>, k: CharClass) -> (r: Vec<char>)
    ensures
        r@ == trim_class(v@, k),
{
    let n = v.len();
    let ghost s = v@;
    let mut i: usize = 0;
    assert(s.subrange(0, n as int) =~= s);
    while i < n && class_has(v[i], k)
        invariant
            i <= n,
            n == s.len(),
            s == v@,
            drop_leading(s, k) == drop_leading(s.subrange(i as int, n as int), k),
        decreases n - i,
    {
        assert(s.subrange(i as int, n as int).drop_first() =~= s.subrange(i + 1, n as int));
        i = i + 1;
    }
    assert(drop_leading(s, k) == s.subrange(i as int, n as int)) by {
        if i == n {
            assert(s.subrange(i as int, n as int).len() == 0);
        }
    }
    let mut j: usize = n;
    while j > i && class_has(v[j - 1], k)
        invariant
            i <= j <= n,
            n == s.len(),
            s == v@,
            drop_trailing(s.subrange(i as int, n as int), k) == drop_trailing(
                s.subrange(i as int, j as int),
                k,
            ),
        decreases j - i,
    {
        assert(s.subrange(i as int, j as int).drop_last() =~= s.subrange(i as int, j - 1));
        j = j - 1;
    }
    assert(drop_trailing(s.subrange(i as int, j as int), k) == s.subrange(i as int, j as int))
        by {
        if j == i {
            assert(s.subrange(i as int, j as int).len() == 0);
        }
    }
    let mut r: Vec<char> = Vec::new();
    let mut p: usize = i;
    while p < j
        invariant
            i <= p <= j <= n,
            n == s.len(),
            s == v@,
            r@ == s.subrange(i as int, p as int),
        decreases j - p,
    {
        r.push(v[p]);
        assert(s.subrange(i as int, p + 1) =~= s.subrange(i as int, p as int).push(s[p as int]));
        p = p + 1;
    }
    r
}

/// `str::trim`.
pub fn trim(s: &str) -> (r: String)
    ensures
        r@ == trimmed(s@),
{
    let v = chars_of(s);
    let t = trim_chars(&v, CharClass::Space);
    string_of(&t)
}

/// Whether `p` occurs in `s` as a contiguous run of characters.
pub open spec fn has_infix(s: Seq<char>, p: Seq<char>) -> bool {
    exists|i: int| 0 <= i && i + p.len() <= s.len() && #[trigger] s.subrange(i, i + p.len()) == p
}

/// `str::contains` with a string pattern.
pub fn contains_text(s: &str, p: &str) -> (r: bool)
    ensures
        r == has_infix(s@, p@),
{
    let sv = chars_of(s);
    let pv = chars_of(p);
    let n = sv.len();
    let m = pv.len();
    if m > n {
        assert forall|i: int| 0 <= i && i + m <= n implies #[trigger] sv@.subrange(i, i + m) != pv@ by {}
        return false;
    }
    let mut i: usize = 0;
    while i <= n - m
        invariant
            m <= n,
            n == sv@.len(),
            m == pv@.len(),
            sv@ == s@,
            pv@ == p@,
            forall|q: int| 0 <= q < i ==> #[trigger] sv@.subrange(q, q + m) != pv@,
        decreases n - i,
    {
        let mut j: usize = 0;
        let mut same = true;
        while j < m
            invariant
                j <= m,
                i + m <= n,
                n == sv@.len(),
                m == pv@.len(),
                same == (forall|t: int| 0 <= t < j ==> sv@[i + t] == pv@[t]),
            decreases m - j,
        {
            if sv[i + j] != pv[j] {
                same = false;
            }
            j = j + 1;
        }
        if same {
            assert(sv@.subrange(i as int, i + m) =~= pv@);
            return true;
        }
        assert(sv@.subrange(i as int, i + m) != pv@) by {
            let t = choose|t: int| 0 <= t < m && sv@[i + t] != pv@[t];
            assert(sv@.subrange(i as int, i + m)[t] == sv@[i + t]);
        }
        i = i + 1;
    }
    false
}

/// The lower-case form of a string, as `str::to_lowercase` maps it.
pub uninterp spec fn lowercase(s: Seq<char>) -> Seq<char>;

/// Calls `str::to_lowercase`. Its result is named by `lowercase`, a function
/// of the argument alone; nothing more is stated of the Unicode case mapping.
#[verifier::external_body]
pub fn to_lower(s: &str) -> (r: String)
    ensures
        r@ == lowercase(s@),
{
    s.to_lowercase()
}

/// The decimal digit for `d < 10`.
pub open spec fn digit_char(d: nat) -> char {
    (48 + d) as char
}

/// The decimal representation of `n`, without leading zeros.
pub open spec fn decimal(n: nat) -> Seq<char>
    decreases n,
{
    if n < 10 {
        seq![digit_char(n)]
    } else {
        decimal(n / 10).push(digit_char(n % 10))
    }
}

/// Formats `n` in decimal, as `u64::to_string` does.
pub fn decimal_string(n: u64) -> (r: String)
    ensures
        r@ == decimal(n as nat),
    decreases n,
{
    let d = (n % 10) as u8;
    let c = (48u8 + d) as char;
    if n < 10 {
        let mut s = String::new();
        push_char(&mut s, c);
        s
    } else {
        let mut s = decimal_string(n / 10);
        push_char(&mut s, c);
        s
    }
}

/// The UTF-16 code units of one character.
pub open spec fn utf16_units(c: char) -> Seq<u16> {
    if (c as u32) < 0x10000 {
        seq![(c as u32) as u16]
    } else {
        let v = (c as u32) - 0x10000;
        seq![(0xD800 + v / 0x400) as u16, (0xDC00 + v % 0x400) as u16]
    }
}

/// `str::encode_utf16`: the UTF-16 code units of a string.
pub open spec fn utf16(s: Seq<char>) -> Seq<u16>
    decreases s.len(),
{
    if s.len() == 0 {
        Seq::empty()
    } else {
        utf16(s.drop_last()) + utf16_units(s.last())
    }
}

/// Encodes `s` as UTF-16.
pub fn encode_utf16(s: &str) -> (r: Vec<u16>)
    ensures
        r@ == utf16(s@),
{
    let v = chars_of(s);
    let mut r: Vec<u16> = Vec::new();
    let mut i: usize = 0;
    while i < v.len()
        invariant
            i <= v.len(),
            v@ == s@,
            r@ == utf16(v@.take(i as int)),
        decreases v.len() - i,
    {
        let c = v[i];
        let code = c as u32;
        assert(v@.take(i + 1).drop_last() =~= v@.take(i as int));
        if code < 0x10000 {
            r.push(code as u16);
            assert(r@ =~= utf16(v@.take(i + 1)));
        } else {
            let w = code - 0x10000;
            let hi = (0xD800 + w / 0x400) as u16;
            let lo = (0xDC00 + w % 0x400) as u16;
            r.push(hi);
            r.push(lo);
            assert(r@ =~= utf16(v@.take(i + 1)));
        }
        i = i + 1;
    }
    assert(v@.take(v.len() as int) =~= v@);
    r
}

/// A fixed-size buffer of `n` units holding as much of `units` as fits
/// before a final NUL, the rest zero.
pub open spec fn fixed_units(units: Seq<u16>, n: nat) -> Seq<u16> {
    let room: int = if n == 0 { 0 } else { n - 1 };
    let k: int = if units.len() < room { units.len() as int } else { room };
    Seq::new(n, |i: int| if i < k { units[i] } else { 0u16 })
}

/// Clears `dst` and writes the UTF-16 form of `s` into it, cut so that the
/// last unit stays NUL.
pub fn fill_fixed_utf16(dst: &mut [u16], s: &str)
    ensures
        final(dst)@ == fixed_units(utf16(s@), old(dst)@.len()),
{
    let units = encode_utf16(s);
    let n = dst.len();
    let room: usize = if n == 0 { 0 } else { n - 1 };
    let k: usize = if units.len() < room { units.len() } else { room };
    let ghost want = fixed_units(utf16(s@), n as nat);
    let mut i: usize = 0;
    while i < n
        invariant
            i <= n,
            n == dst@.len(),
            units@ == utf16(s@),
            room == (if n == 0 { 0 } else { n - 1 }),
            k == (if units@.len() < room { units@.len() as int } else { room as int }),
            want == fixed_units(utf16(s@), n as nat),
            forall|t: int| 0 <= t < i ==> dst@[t] == want[t],
        decreases n - i,
    {
        if i < k {
            dst[i] = units[i];
        } else {
            dst[i] = 0;
        }
        i = i + 1;
    }
    assert(dst@ =~= want);
}

/// `units` followed by a NUL terminator.
pub open spec fn wide(s: Seq<char>) -> Seq<u16> {
    utf16(s).push(0u16)
}

/// The NUL-terminated UTF-16 form of `s`.
pub fn to_wide(s: &str) -> (r: Vec<u16>)
    ensures
        r@ == wide(s@),
{
    let mut r = encode_utf16(s);
    r.push(0);
    r
}

/// The first `max` characters of `s` (all of them when it is shorter).
pub open spec fn first_chars(s: Seq<char>, max: nat) -> Seq<char> {
    if s.len() <= max {
        s
    } else {
        s.take(max as int)
    }
}

/// Cuts `s` to at most `max_chars` characters.
pub fn truncate_chars(s: &str, max_chars: usize) -> (r: String)
    ensures
        r@ == first_chars(s@, max_chars as nat),
{
    let v = chars_of(s);
    if v.len() <= max_chars {
        return string_of(&v);
    }
    let mut out: Vec<char> = Vec::new();
    let mut i: usize = 0;
    while i < max_chars
        invariant
            i <= max_chars < v@.len(),
            v@ == s@,
            out@ == v@.take(i as int),
        decreases max_chars - i,
    {
        out.push(v[i]);
        assert(v@.take(i + 1) =~= v@.take(i as int).push(v@[i as int]));
        i = i + 1;
    }
    string_of(&out)
}

} // verus!

verus! {

/// `a` followed by `b`.
pub fn join(a: &str, b: &str) -> (r: String)
    ensures
        r@ == a@ + b@,
{
    String::from_str(a).concat(b)
}

/// A filled fixed buffer keeps its size, ends in NUL, and starts with the
/// longest prefix of the text's code units that leaves room for that NUL.
pub proof fn law_fixed_buffer_terminated(units: Seq<u16>, n: nat)
    requires
        n > 0,
    ensures
        fixed_units(units, n).len() == n,
        fixed_units(units, n)[n - 1] == 0,
        forall|i: int|
            0 <= i < n - 1 && i < units.len() ==> #[trigger] fixed_units(units, n)[i] == units[i],
{
}

/// Cutting a text keeps a prefix of it, no longer than the limit, and leaves
/// a text within the limit unchanged.
pub proof fn law_truncation_is_prefix(s: Seq<char>, max: nat)
    ensures
        first_chars(s, max).len() <= max || first_chars(s, max) == s,
        first_chars(s, max).len() <= s.len(),
        s.len() <= max ==> first_chars(s, max) == s,
        forall|i: int| 0 <= i < first_chars(s, max).len() ==> #[trigger] first_chars(s, max)[i] == s[i],
{
}

} // verus!
