//! Character-level text helpers shared by the rest of the library: ASCII
//! lower-casing, Unicode white-space trimming, decimal rendering, and the
//! path and case-folding queries that come from the standard library.

use vstd::prelude::*;

verus! {

// ---------------------------------------------------------------------------
// Views of optional strings
// ---------------------------------------------------------------------------

/// The character sequence of an optional string.
pub open spec fn opt_view(o: Option<String>) -> Option<Seq<char>> {
    match o {
        Some(s) => Some(s@),
        None => None,
    }
}

// ---------------------------------------------------------------------------
// ASCII lower-casing
// ---------------------------------------------------------------------------

/// `'A'..='Z'` map to `'a'..='z'`; every other character is unchanged.
pub open spec fn ascii_lower_char(c: char) -> char {
    if 65 <= (c as u32) && (c as u32) <= 90 {
        ((c as u32) + 32) as char
    } else {
        c
    }
}

/// ASCII lower-casing of a whole sequence, character by character.
pub open spec fn ascii_lower(s: Seq<char>) -> Seq<char> {
    s.map_values(|c: char| ascii_lower_char(c))
}

/// Lower-casing an ASCII-lower-cased text changes nothing.
pub proof fn lemma_ascii_lower_idempotent(s: Seq<char>)
    ensures
        ascii_lower(ascii_lower(s)) == ascii_lower(s),
{
    assert(ascii_lower(ascii_lower(s)) =~= ascii_lower(s));
}

/// Appends one character to a string (`String::push`).
#[verifier::external_body]
pub(crate) fn push_char(s: &mut String, c: char)
    ensures
        final(s)@ == old(s)@.push(c),
{
    s.push(c);
}

fn lower_char(c: char) -> (r: char)
    ensures
        r == ascii_lower_char(c),
{
    if 'A' <= c && c <= 'Z' {
        let v: u8 = (c as u8) + 32;
        v as char
    } else {
        c
    }
}

/// A copy of `s` in which ASCII upper-case letters are lower-cased.
pub fn ascii_lowercase(s: &str) -> (r: String)
    ensures
        r@ == ascii_lower(s@),
{
    let mut out = String::new();
    for c in it: s.chars()
        invariant
            out@ == ascii_lower(it.seq().take(it.index() as int)),
    {
        let l = lower_char(c);
        push_char(&mut out, l);
    }
    out
}

/// The characters of `s`, one per element.
pub(crate) fn chars_of(s: &str) -> (v: Vec<char>)
    ensures
        v@ == s@,
{
    let mut v: Vec<char> = Vec::new();
    for c in it: s.chars()
        invariant
            v@ == it.seq().take(it.index() as int),
    {
        v.push(c);
    }
    v
}

/// A string made of `cs[lo..hi]`.
pub(crate) fn string_from_range(cs: &Vec<char>, lo: usize, hi: usize) -> (r: String)
    requires
        lo <= hi <= cs@.len(),
    ensures
        r@ == cs@.subrange(lo as int, hi as int),
{
    let mut out = String::new();
    let mut i = lo;
    while i < hi
        invariant
            lo <= i <= hi <= cs@.len(),
            out@ == cs@.subrange(lo as int, i as int),
        decreases hi - i,
    {
        push_char(&mut out, cs[i]);
        assert(cs@.subrange(lo as int, i + 1) =~= cs@.subrange(lo as int, i as int).push(cs@[i as int]));
        i += 1;
    }
    out
}

/// A string holding the characters of `a` followed by those of `b`.
pub fn concat_str(a: &str, b: &str) -> (r: String)
    ensures
        r@ == a@ + b@,
{
    let mut out = String::new();
    for c in it: a.chars()
        invariant
            out@ == it.seq().take(it.index() as int),
    {
        push_char(&mut out, c);
    }
    assert(out@ =~= a@);
    for c in it: b.chars()
        invariant
            out@ == a@ + it.seq().take(it.index() as int),
    {
        push_char(&mut out, c);
        assert(a@ + it.seq().take(it.index() as int + 1) =~= (a@ + it.seq().take(
            it.index() as int,
        )).push(c));
    }
    out
}

// ---------------------------------------------------------------------------
// Unicode lower-casing (`str::to_lowercase`)
// ---------------------------------------------------------------------------

/// What `str::to_lowercase` returns for a text: each character replaced by
/// its Unicode `Lowercase` mapping (which may be several characters long).
pub uninterp spec fn spec_to_lowercase(s: Seq<char>) -> Seq<char>;

/// `str::to_lowercase`: the Unicode lower-case form of `s`. Its result is
/// named by `spec_to_lowercase`; the Unicode case tables are not restated.
/// Stated: the empty text stays empty (each character maps to its own
/// lower-case form, so no characters means none).
#[verifier::external_body]
pub(crate) fn to_lowercase(s: &str) -> (r: String)
    ensures
        r@ == spec_to_lowercase(s@),
        s@.len() == 0 ==> r@.len() == 0,
{
    s.to_lowercase()
}

// ---------------------------------------------------------------------------
// White-space trimming (`str::trim`)
// ---------------------------------------------------------------------------

/// The Unicode `White_Space` property, the notion of white space that
/// `str::trim` uses.
pub open spec fn is_white_space(c: char) -> bool {
    let u = c as u32;
    ||| 0x09 <= u && u <= 0x0D
    ||| u == 0x20
    ||| u == 0x85
    ||| u == 0xA0
    ||| u == 0x1680
    ||| 0x2000 <= u && u <= 0x200A
    ||| u == 0x2028
    ||| u == 0x2029
    ||| u == 0x202F
    ||| u == 0x205F
    ||| u == 0x3000
}

/// `s` without its leading white space.
pub open spec fn trim_start(s: Seq<char>) -> Seq<char>
    decreases s.len(),
{
    if s.len() > 0 && is_white_space(s[0]) {
        trim_start(s.drop_first())
    } else {
        s
    }
}

/// `s` without its trailing white space.
pub open spec fn trim_end(s: Seq<char>) -> Seq<char>
    decreases s.len(),
{
    if s.len() > 0 && is_white_space(s.last()) {
        trim_end(s.drop_last())
    } else {
        s
    }
}

/// `s` without leading and trailing white space.
pub open spec fn trimmed(s: Seq<char>) -> Seq<char> {
    trim_end(trim_start(s))
}

fn white_space(c: char) -> (b: bool)
    ensures
        b == is_white_space(c),
{
    let u = c as u32;
    (0x09 <= u && u <= 0x0D) || u == 0x20 || u == 0x85 || u == 0xA0 || u == 0x1680 || (0x2000
        <= u && u <= 0x200A) || u == 0x2028 || u == 0x2029 || u == 0x202F || u == 0x205F || u
        == 0x3000
}

proof fn lemma_trim_start_at(s: Seq<char>, lo: int)
    requires
        0 <= lo <= s.len(),
        forall|i: int| 0 <= i < lo ==> is_white_space(#[trigger] s[i]),
        lo == s.len() || !is_white_space(s[lo]),
    ensures
        trim_start(s) == s.subrange(lo, s.len() as int),
    decreases lo,
{
    if lo == 0 {
        assert(s.subrange(0, s.len() as int) =~= s);
    } else {
        let t = s.drop_first();
        assert forall|i: int| 0 <= i < lo - 1 implies is_white_space(#[trigger] t[i]) by {
            assert(t[i] == s[i + 1]);
        }
        if lo - 1 < t.len() {
            assert(t[lo - 1] == s[lo]);
        }
        lemma_trim_start_at(t, lo - 1);
        assert(t.subrange(lo - 1, t.len() as int) =~= s.subrange(lo, s.len() as int));
    }
}

proof fn lemma_trim_end_at(s: Seq<char>, hi: int)
    requires
        0 <= hi <= s.len(),
        forall|i: int| hi <= i < s.len() ==> is_white_space(#[trigger] s[i]),
        hi == 0 || !is_white_space(s[hi - 1]),
    ensures
        trim_end(s) == s.subrange(0, hi),
    decreases s.len() - hi,
{
    if hi == s.len() {
        assert(s.subrange(0, hi) =~= s);
    } else {
        let t = s.drop_last();
        assert forall|i: int| hi <= i < t.len() implies is_white_space(#[trigger] t[i]) by {
            assert(t[i] == s[i]);
        }
        if hi > 0 {
            assert(t[hi - 1] == s[hi - 1]);
        }
        lemma_trim_end_at(t, hi);
        assert(t.subrange(0, hi) =~= s.subrange(0, hi));
    }
}

/// `s` with leading and trailing white space removed (`str::trim`).
pub fn trim(s: &str) -> (r: String)
    ensures
        r@ == trimmed(s@),
{
    let cs = chars_of(s);
    let n = cs.len();
    let mut lo: usize = 0;
    while lo < n && white_space(cs[lo])
        invariant
            lo <= n == cs@.len(),
            forall|i: int| 0 <= i < lo ==> is_white_space(#[trigger] cs@[i]),
        decreases n - lo,
    {
        lo += 1;
    }
    let mut hi: usize = n;
    while hi > lo && white_space(cs[hi - 1])
        invariant
            lo <= hi <= n == cs@.len(),
            forall|i: int| hi <= i < n ==> is_white_space(#[trigger] cs@[i]),
        decreases hi - lo,
    {
        hi -= 1;
    }
    proof {
        let s0 = cs@;
        lemma_trim_start_at(s0, lo as int);
        let t = s0.subrange(lo as int, n as int);
        assert forall|i: int| hi - lo <= i < t.len() implies is_white_space(#[trigger] t[i]) by {
            assert(t[i] == s0[i + lo]);
        }
        if hi > lo {
            assert(t[hi - lo - 1] == s0[hi - 1]);
        }
        lemma_trim_end_at(t, hi - lo);
        assert(t.subrange(0, hi - lo) =~= s0.subrange(lo as int, hi as int));
    }
    string_from_range(&cs, lo, hi)
}

/// Trimming a trimmed text changes nothing.
pub proof fn lemma_trimmed_idempotent(s: Seq<char>)
    ensures
        trimmed(trimmed(s)) == trimmed(s),
{
    lemma_trim_start_no_lead(s);
    lemma_trim_end_keeps_lead(trim_start(s));
    lemma_trim_start_fixed(trimmed(s));
    lemma_trim_end_no_trail(trim_start(s));
    lemma_trim_end_fixed(trimmed(s));
}

proof fn lemma_trim_start_no_lead(s: Seq<char>)
    ensures
        trim_start(s).len() == 0 || !is_white_space(trim_start(s)[0]),
    decreases s.len(),
{
    if s.len() > 0 && is_white_space(s[0]) {
        lemma_trim_start_no_lead(s.drop_first());
    }
}

proof fn lemma_trim_end_no_trail(s: Seq<char>)
    ensures
        trim_end(s).len() == 0 || !is_white_space(trim_end(s).last()),
    decreases s.len(),
{
    if s.len() > 0 && is_white_space(s.last()) {
        lemma_trim_end_no_trail(s.drop_last());
    }
}

/// Trimming the end of a text whose first character is not white space keeps
/// that first character in front (or empties the text).
proof fn lemma_trim_end_keeps_lead(s: Seq<char>)
    requires
        s.len() == 0 || !is_white_space(s[0]),
    ensures
        trim_end(s).len() == 0 || !is_white_space(trim_end(s)[0]),
    decreases s.len(),
{
    if s.len() > 0 && is_white_space(s.last()) {
        let t = s.drop_last();
        if t.len() > 0 {
            assert(t[0] == s[0]);
        }
        lemma_trim_end_keeps_lead(t);
    }
}

proof fn lemma_trim_start_fixed(s: Seq<char>)
    requires
        s.len() == 0 || !is_white_space(s[0]),
    ensures
        trim_start(s) == s,
{
}

proof fn lemma_trim_end_fixed(s: Seq<char>)
    requires
        s.len() == 0 || !is_white_space(s.last()),
    ensures
        trim_end(s) == s,
{
}

// ---------------------------------------------------------------------------
// Decimal rendering
// ---------------------------------------------------------------------------

/// The character of a decimal digit.
pub open spec fn digit_char(d: nat) -> char {
    ((48 + d) as u32) as char
}

/// The decimal rendering of `n`, without leading zeros (`"0"` for zero).
pub open spec fn decimal(n: nat) -> Seq<char>
    decreases n,
{
    if n < 10 {
        seq![digit_char(n)]
    } else {
        decimal(n / 10).push(digit_char(n % 10))
    }
}

/// The number that a text of decimal digits denotes.
pub open spec fn decimal_value(s: Seq<char>) -> int
    decreases s.len(),
{
    if s.len() == 0 {
        0
    } else {
        decimal_value(s.drop_last()) * 10 + ((s.last() as u32) as int - 48)
    }
}

/// Whether every character of `s` is one of `0`..`9`.
pub open spec fn all_digits(s: Seq<char>) -> bool {
    forall|i: int| 0 <= i < s.len() ==> 48 <= (#[trigger] s[i] as u32) && (s[i] as u32) <= 57
}

proof fn lemma_digit_char(d: nat)
    requires
        d < 10,
    ensures
        (digit_char(d) as u32) == 48 + d,
{
}

/// The decimal rendering of `n` is made of digits and denotes `n`.
pub proof fn lemma_decimal_denotes(n: nat)
    ensures
        decimal_value(decimal(n)) == n,
        all_digits(decimal(n)),
        decimal(n).len() > 0,
    decreases n,
{
    if n < 10 {
        lemma_digit_char(n);
        let s = decimal(n);
        assert(s.drop_last() =~= Seq::<char>::empty());
        assert(decimal_value(s.drop_last()) == 0);
        assert(decimal_value(s) == decimal_value(s.drop_last()) * 10 + ((s.last() as u32) as int - 48));
    } else {
        lemma_decimal_denotes(n / 10);
        lemma_digit_char(n % 10);
        let s = decimal(n);
        assert(s.drop_last() =~= decimal(n / 10));
        assert(s.last() == digit_char(n % 10));
        assert((n / 10) * 10 + n % 10 == n);
        assert(decimal_value(s) == decimal_value(s.drop_last()) * 10 + ((s.last() as u32) as int - 48));
        assert forall|i: int| 0 <= i < s.len() implies 48 <= (#[trigger] s[i] as u32) && (s[i] as u32) <= 57 by {
            if i < s.len() - 1 {
                assert(s[i] == decimal(n / 10)[i]);
            }
        }
    }
}

/// `n` rendered with exactly `width` decimal digits, padded with zeros on the
/// left (for `n < 10^width`).
pub open spec fn padded_decimal(n: nat, width: nat) -> Seq<char>
    decreases width,
{
    if width == 0 {
        Seq::empty()
    } else {
        padded_decimal(n / 10, (width - 1) as nat).push(digit_char(n % 10))
    }
}

fn digit(d: u64) -> (c: char)
    requires
        d < 10,
    ensures
        c == digit_char(d as nat),
{
    let b: u8 = 48 + (d as u8);
    b as char
}

/// The decimal rendering of `n`, as `n.to_string()` gives it.
pub fn decimal_string(n: u64) -> (r: String)
    ensures
        r@ == decimal(n as nat),
{
    // Digits from the least significant one on.
    let mut rev: Vec<char> = Vec::new();
    let mut m = n;
    while m >= 10
        invariant
            decimal(n as nat) == decimal(m as nat) + rev@.reverse(),
        decreases m,
    {
        let ghost old_rev = rev@;
        rev.push(digit(m % 10));
        proof {
            assert(rev@.reverse() =~= seq![digit_char((m % 10) as nat)] + old_rev.reverse());
            assert(decimal((m / 10) as nat) + rev@.reverse() =~= decimal((m / 10) as nat).push(
                digit_char((m % 10) as nat),
            ) + old_rev.reverse());
        }
        m = m / 10;
    }
    let ghost before = rev@;
    rev.push(digit(m));
    assert(rev@.reverse() =~= seq![digit_char(m as nat)] + before.reverse());
    let mut out = String::new();
    let mut i = rev.len();
    while i > 0
        invariant
            i <= rev@.len(),
            out@ == rev@.reverse().subrange(0, rev@.len() - i),
        decreases i,
    {
        i -= 1;
        push_char(&mut out, rev[i]);
        assert(rev@.reverse().subrange(0, rev@.len() - i) =~= rev@.reverse().subrange(
            0,
            rev@.len() - i - 1,
        ).push(rev@[i as int]));
    }
    assert(rev@.reverse().subrange(0, rev@.len() as int) =~= rev@.reverse());
    out
}

/// `n` rendered as exactly three digits (`n < 1000`), zero-padded on the left.
pub fn three_digits(n: u64) -> (r: String)
    requires
        n < 1000,
    ensures
        r@ == padded_decimal(n as nat, 3),
{
    let mut out = String::new();
    push_char(&mut out, digit(n / 100));
    push_char(&mut out, digit((n / 10) % 10));
    push_char(&mut out, digit(n % 10));
    proof {
        assert(padded_decimal(n as nat, 3) == padded_decimal((n / 10) as nat, 2).push(
            digit_char((n % 10) as nat),
        ));
        assert(padded_decimal((n / 10) as nat, 2) == padded_decimal(((n / 10) / 10) as nat, 1).push(
            digit_char(((n / 10) % 10) as nat),
        ));
        assert(padded_decimal(((n / 10) / 10) as nat, 1) == padded_decimal(
            (((n / 10) / 10) / 10) as nat,
            0,
        ).push(digit_char((((n / 10) / 10) % 10) as nat)));
        assert((n / 10) / 10 == n / 100);
        assert(out@ =~= padded_decimal(n as nat, 3));
    }
    out
}

/// Three zero-padded digits of `m < 1000` are digits and denote `m`.
pub proof fn lemma_three_digits_denote(m: nat)
    requires
        m < 1000,
    ensures
        padded_decimal(m, 3).len() == 3,
        all_digits(padded_decimal(m, 3)),
        decimal_value(padded_decimal(m, 3)) == m,
{
    let p0 = padded_decimal(m / 1000, 0);
    let p1 = padded_decimal(m / 100, 1);
    let p2 = padded_decimal(m / 10, 2);
    let p3 = padded_decimal(m, 3);
    assert(m / 100 / 10 == m / 1000);
    assert(m / 10 / 10 == m / 100);
    assert(p1 == p0.push(digit_char((m / 100) % 10)));
    assert(p2 == p1.push(digit_char((m / 10) % 10)));
    assert(p3 == p2.push(digit_char(m % 10)));
    assert(p0 =~= Seq::<char>::empty());
    lemma_digit_char((m / 100) % 10);
    lemma_digit_char((m / 10) % 10);
    lemma_digit_char(m % 10);
    assert(p1.drop_last() =~= p0);
    assert(p2.drop_last() =~= p1);
    assert(p3.drop_last() =~= p2);
    assert(decimal_value(p0) == 0);
    assert(decimal_value(p1) == decimal_value(p1.drop_last()) * 10 + ((p1.last() as u32) as int - 48));
    assert(decimal_value(p2) == decimal_value(p2.drop_last()) * 10 + ((p2.last() as u32) as int - 48));
    assert(decimal_value(p3) == decimal_value(p3.drop_last()) * 10 + ((p3.last() as u32) as int - 48));
    assert(m / 1000 == 0);
    assert(((m / 100) * 10 + (m / 10) % 10) * 10 + m % 10 == m);
    assert forall|i: int| 0 <= i < p3.len() implies 48 <= (#[trigger] p3[i] as u32) && (p3[i] as u32) <= 57 by {
        if i == 0 {
            assert(p3[0] == digit_char((m / 100) % 10));
        } else if i == 1 {
            assert(p3[1] == digit_char((m / 10) % 10));
        }
    }
}

} // verus!
