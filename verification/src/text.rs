//! Text helpers over `char` sequences: trimming, case-insensitive matching,
//! decimal and hexadecimal rendering.

use vstd::prelude::*;

verus! {

broadcast use vstd::string::group_string_axioms;

/// Whether `c` has the Unicode `White_Space` property (what
/// `char::is_whitespace` decides): tab, line feed, vertical tab, form feed,
/// carriage return, space, next line, no-break space, ogham space mark, the
/// spaces from en quad to hair space, line and paragraph separator, narrow
/// no-break space, medium mathematical space and ideographic space.
pub open spec fn unicode_white_space(c: char) -> bool {
    let n = c as u32;
    ||| 0x9 <= n <= 0xD
    ||| n == 0x20
    ||| n == 0x85
    ||| n == 0xA0
    ||| n == 0x1680
    ||| 0x2000 <= n <= 0x200A
    ||| n == 0x2028
    ||| n == 0x2029
    ||| n == 0x202F
    ||| n == 0x205F
    ||| n == 0x3000
}

/// Decides `unicode_white_space`.
pub fn is_whitespace(c: char) -> (r: bool)
    ensures
        r == unicode_white_space(c),
{
    let n = c as u32;
    (0x9 <= n && n <= 0xD) || n == 0x20 || n == 0x85 || n == 0xA0 || n == 0x1680 || (0x2000
        <= n && n <= 0x200A) || n == 0x2028 || n == 0x2029 || n == 0x202F || n == 0x205F || n
        == 0x3000
}

/// `String::push` (std): appends one char.
#[verifier::external_body]
pub(crate) fn push_char(s: &mut String, c: char)
    ensures
        final(s)@ == old(s)@.push(c),
{
    s.push(c)
}

/// The chars of `s`, in order.
pub fn chars_of(s: &str) -> (v: Vec<char>)
    ensures
        v@ == s@,
{
    let mut v: Vec<char> = Vec::new();
    for c in iter: s.chars()
        invariant
            v@ == iter.seq().take(iter.index() as int),
    {
        v.push(c);
    }
    v
}


/// Builds a `String` from `v[lo..hi]`.
pub fn string_from_chars(v: &Vec<char>, lo: usize, hi: usize) -> (s: String)
    requires
        lo <= hi <= v@.len(),
    ensures
        s@ == v@.subrange(lo as int, hi as int),
{
    let mut s = String::new();
    let mut i: usize = lo;
    while i < hi
        invariant
            lo <= i <= hi <= v@.len(),
            s@ == v@.subrange(lo as int, i as int),
        decreases hi - i,
    {
        push_char(&mut s, v[i]);
        assert(v@.subrange(lo as int, i + 1) =~= v@.subrange(lo as int, i as int).push(v@[i as int]));
        i += 1;
    }
    s
}

/// `s` without its leading Unicode whitespace.
pub open spec fn trim_start(s: Seq<char>) -> Seq<char>
    decreases s.len(),
{
    if s.len() > 0 && unicode_white_space(s[0]) {
        trim_start(s.drop_first())
    } else {
        s
    }
}

/// `s` without its trailing Unicode whitespace.
pub open spec fn trim_end(s: Seq<char>) -> Seq<char>
    decreases s.len(),
{
    if s.len() > 0 && unicode_white_space(s.last()) {
        trim_end(s.drop_last())
    } else {
        s
    }
}

/// `s` without leading and trailing Unicode whitespace (what `str::trim` gives).
pub open spec fn trim(s: Seq<char>) -> Seq<char> {
    trim_end(trim_start(s))
}

/// `s` without any run of `c` at its end (what `str::trim_end_matches(c)` gives).
pub open spec fn trim_end_char(s: Seq<char>, c: char) -> Seq<char>
    decreases s.len(),
{
    if s.len() > 0 && s.last() == c {
        trim_end_char(s.drop_last(), c)
    } else {
        s
    }
}

/// Index of the first char of `v[lo..hi]` that is not whitespace (or `hi`).
fn skip_leading_whitespace(v: &Vec<char>, lo: usize, hi: usize) -> (i: usize)
    requires
        lo <= hi <= v@.len(),
    ensures
        lo <= i <= hi,
        trim_start(v@.subrange(lo as int, hi as int)) == v@.subrange(i as int, hi as int),
{
    let mut i: usize = lo;
    while i < hi && is_whitespace(v[i])
        invariant
            lo <= i <= hi <= v@.len(),
            trim_start(v@.subrange(lo as int, hi as int)) == trim_start(v@.subrange(i as int, hi as int)),
        decreases hi - i,
    {
        assert(v@.subrange(i as int, hi as int).drop_first() =~= v@.subrange(i + 1, hi as int));
        i += 1;
    }
    i
}

/// Index just past the last char of `v[lo..hi]` that is not whitespace (or `lo`).
fn skip_trailing_whitespace(v: &Vec<char>, lo: usize, hi: usize) -> (j: usize)
    requires
        lo <= hi <= v@.len(),
    ensures
        lo <= j <= hi,
        trim_end(v@.subrange(lo as int, hi as int)) == v@.subrange(lo as int, j as int),
{
    let mut j: usize = hi;
    while j > lo && is_whitespace(v[j - 1])
        invariant
            lo <= j <= hi <= v@.len(),
            trim_end(v@.subrange(lo as int, hi as int)) == trim_end(v@.subrange(lo as int, j as int)),
        decreases j - lo,
    {
        assert(v@.subrange(lo as int, j as int).drop_last() =~= v@.subrange(lo as int, j - 1));
        j -= 1;
    }
    j
}

/// Bounds `(i, j)` such that `v[i..j]` is `v` trimmed of whitespace at both ends.
pub fn trim_bounds(v: &Vec<char>) -> (b: (usize, usize))
    ensures
        b.0 <= b.1 <= v@.len(),
        trim(v@) == v@.subrange(b.0 as int, b.1 as int),
{
    let n = v.len();
    let i = skip_leading_whitespace(v, 0, n);
    assert(v@.subrange(0, n as int) =~= v@);
    let j = skip_trailing_whitespace(v, i, n);
    (i, j)
}

/// `str::trim`, as an owned string.
pub fn trimmed(s: &str) -> (r: String)
    ensures
        r@ == trim(s@),
{
    let v = chars_of(s);
    let (i, j) = trim_bounds(&v);
    string_from_chars(&v, i, j)
}

/// Whether `str::trim(s)` is empty.
pub fn is_blank(s: &str) -> (r: bool)
    ensures
        r == (trim(s@).len() == 0),
{
    let v = chars_of(s);
    let (i, j) = trim_bounds(&v);
    i == j
}

/// `s.trim().trim_end_matches(c)`, as an owned string.
pub fn trimmed_then_strip_end(s: &str, c: char) -> (r: String)
    ensures
        r@ == trim_end_char(trim(s@), c),
{
    let v = chars_of(s);
    let (i, j0) = trim_bounds(&v);
    let mut j: usize = j0;
    while j > i && v[j - 1] == c
        invariant
            i <= j <= j0 <= v@.len(),
            trim_end_char(v@.subrange(i as int, j0 as int), c) == trim_end_char(v@.subrange(i as int, j as int), c),
        decreases j - i,
    {
        assert(v@.subrange(i as int, j as int).drop_last() =~= v@.subrange(i as int, j - 1));
        j -= 1;
    }
    string_from_chars(&v, i, j)
}

/// The code of `c` once an ASCII upper-case letter is lowered.
pub open spec fn lower_ascii(c: char) -> int {
    if 'A' <= c && c <= 'Z' {
        (c as u32) + 32
    } else {
        (c as u32) as int
    }
}

/// `s` and `word` have the same length and agree char by char once ASCII
/// upper-case letters of `s` are lowered.
pub open spec fn eq_ignoring_ascii_case(s: Seq<char>, word: Seq<char>) -> bool {
    &&& s.len() == word.len()
    &&& forall|i: int| 0 <= i < s.len() ==> lower_ascii(#[trigger] s[i]) == word[i] as u32
}

/// Decides `eq_ignoring_ascii_case(s@, word@)`.
pub fn matches_ignoring_ascii_case(s: &Vec<char>, word: &str) -> (r: bool)
    ensures
        r == eq_ignoring_ascii_case(s@, word@),
{
    let w = chars_of(word);
    if s.len() != w.len() {
        return false;
    }
    let mut i: usize = 0;
    while i < s.len()
        invariant
            s@.len() == w@.len(),
            w@ == word@,
            0 <= i <= s@.len(),
            forall|k: int| 0 <= k < i ==> lower_ascii(#[trigger] s@[k]) == w@[k] as u32,
        decreases s@.len() - i,
    {
        let c = s[i];
        let d = w[i];
        let lc: u32 = if 'A' <= c && c <= 'Z' { (c as u32) + 32 } else { c as u32 };
        if lc != (d as u32) {
            return false;
        }
        i += 1;
    }
    true
}


/// The char of a hexadecimal digit `d` (`0 <= d < 16`), lower case.
pub open spec fn hex_digit(d: int) -> char {
    if d == 0 { '0' } else if d == 1 { '1' } else if d == 2 { '2' } else if d == 3 { '3' }
    else if d == 4 { '4' } else if d == 5 { '5' } else if d == 6 { '6' } else if d == 7 { '7' }
    else if d == 8 { '8' } else if d == 9 { '9' } else if d == 10 { 'a' } else if d == 11 { 'b' }
    else if d == 12 { 'c' } else if d == 13 { 'd' } else if d == 14 { 'e' } else { 'f' }
}

fn hex_digit_char(d: u8) -> (c: char)
    requires
        d < 16,
    ensures
        c == hex_digit(d as int),
{
    match d {
        0 => '0', 1 => '1', 2 => '2', 3 => '3', 4 => '4', 5 => '5', 6 => '6', 7 => '7',
        8 => '8', 9 => '9', 10 => 'a', 11 => 'b', 12 => 'c', 13 => 'd', 14 => 'e', _ => 'f',
    }
}

/// Each byte as two lower-case hexadecimal digits, high nibble first.
pub open spec fn hex_lower(bytes: Seq<u8>) -> Seq<char>
    decreases bytes.len(),
{
    if bytes.len() == 0 {
        Seq::empty()
    } else {
        hex_lower(bytes.drop_last()).push(hex_digit((bytes.last() / 16) as int)).push(
            hex_digit((bytes.last() % 16) as int),
        )
    }
}

/// Renders `bytes` as lower-case hexadecimal.
pub fn to_hex_lower(bytes: &Vec<u8>) -> (s: String)
    ensures
        s@ == hex_lower(bytes@),
        s@.len() == 2 * bytes@.len(),
{
    let mut s = String::new();
    let mut i: usize = 0;
    while i < bytes.len()
        invariant
            0 <= i <= bytes@.len(),
            s@ == hex_lower(bytes@.subrange(0, i as int)),
            s@.len() == 2 * i,
        decreases bytes@.len() - i,
    {
        let b = bytes[i];
        push_char(&mut s, hex_digit_char(b / 16));
        push_char(&mut s, hex_digit_char(b % 16));
        assert(bytes@.subrange(0, i + 1).drop_last() =~= bytes@.subrange(0, i as int));
        i += 1;
    }
    assert(bytes@.subrange(0, bytes@.len() as int) =~= bytes@);
    s
}

/// The char of a decimal digit `d` (`0 <= d < 10`).
pub open spec fn decimal_digit(d: int) -> char {
    if d == 0 { '0' } else if d == 1 { '1' } else if d == 2 { '2' } else if d == 3 { '3' }
    else if d == 4 { '4' } else if d == 5 { '5' } else if d == 6 { '6' } else if d == 7 { '7' }
    else if d == 8 { '8' } else { '9' }
}

/// The decimal rendering of `n`, without leading zeros.
pub open spec fn decimal(n: nat) -> Seq<char>
    decreases n,
{
    if n < 10 {
        seq![decimal_digit(n as int)]
    } else {
        decimal(n / 10).push(decimal_digit((n % 10) as int))
    }
}

/// Renders `n` in decimal.
pub fn to_decimal(n: u64) -> (s: String)
    ensures
        s@ == decimal(n as nat),
    decreases n,
{
    let d = n % 10;
    let c = match d {
        0 => '0', 1 => '1', 2 => '2', 3 => '3', 4 => '4', 5 => '5', 6 => '6', 7 => '7',
        8 => '8', _ => '9',
    };
    if n < 10 {
        let mut s = String::new();
        push_char(&mut s, c);
        assert(s@ =~= seq![decimal_digit(n as int)]);
        s
    } else {
        let mut s = to_decimal(n / 10);
        push_char(&mut s, c);
        s
    }
}

} // verus!
