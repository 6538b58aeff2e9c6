//! Character-level string operations on `Seq<char>` views: ASCII case folding,
//! prefixes, Unicode trimming, decimal parsing, and the few `std` text
//! functions whose results are only named here.
use vstd::prelude::*;

verus! {

// ---------------------------------------------------------------------------
// Names for std text functions that depend on Unicode tables
// ---------------------------------------------------------------------------

/// Whether `c` has the Unicode `White_Space` property (what `char::is_whitespace` returns).
pub uninterp spec fn unicode_white_space(c: char) -> bool;

/// Whether `c` has the Unicode `Uppercase` property (what `char::is_uppercase` returns).
pub uninterp spec fn unicode_uppercase(c: char) -> bool;

/// The Unicode lowercase mapping of a whole string (what `str::to_lowercase` returns).
pub uninterp spec fn unicode_lowercase(s: Seq<char>) -> Seq<char>;

/// Calls `char::is_whitespace`. The result is named `unicode_white_space`; on ASCII
/// characters the Unicode `White_Space` property holds exactly for the space and the
/// control characters from tab (U+0009) to carriage return (U+000D).
#[verifier::external_body]
pub(crate) fn is_whitespace(c: char) -> (r: bool)
    ensures
        r == unicode_white_space(c),
        (c as u32) < 128 ==> (r <==> (c == ' ' || ('\t' <= c && c <= '\r'))),
{
    c.is_whitespace()
}

/// Calls `char::is_uppercase`. The result is named `unicode_uppercase`; on ASCII
/// characters the Unicode `Uppercase` property holds exactly for `A`..=`Z`.
#[verifier::external_body]
pub(crate) fn is_uppercase(c: char) -> (r: bool)
    ensures
        r == unicode_uppercase(c),
        (c as u32) < 128 ==> (r <==> ('A' <= c && c <= 'Z')),
{
    c.is_uppercase()
}

/// Calls `str::to_lowercase`. The result is named `unicode_lowercase`; on a string made
/// of ASCII characters only, the Unicode lowercase mapping is the ASCII one, character
/// by character.
#[verifier::external_body]
pub(crate) fn to_lowercase(s: &str) -> (r: String)
    ensures
        r@ == unicode_lowercase(s@),
        is_ascii_seq(s@) ==> r@ == s@.map_values(|c: char| ascii_lower(c)),
{
    s.to_lowercase()
}

/// Calls `String::push`: appends one character.
#[verifier::external_body]
pub(crate) fn push_char(s: &mut String, c: char)
    ensures
        final(s)@ == old(s)@.push(c),
{
    s.push(c)
}

/// White space as `char::is_whitespace` reports it: spelled out on ASCII.
pub open spec fn white_space(c: char) -> bool {
    if (c as u32) < 128 {
        c == ' ' || ('\t' <= c && c <= '\r')
    } else {
        unicode_white_space(c)
    }
}

/// Uppercase as `char::is_uppercase` reports it: spelled out on ASCII.
pub open spec fn uppercase_letter(c: char) -> bool {
    if (c as u32) < 128 {
        'A' <= c && c <= 'Z'
    } else {
        unicode_uppercase(c)
    }
}

/// Lowercase mapping as `str::to_lowercase` performs it: spelled out on ASCII text.
pub open spec fn lowercase_text(s: Seq<char>) -> Seq<char> {
    if is_ascii_seq(s) {
        s.map_values(|c: char| ascii_lower(c))
    } else {
        unicode_lowercase(s)
    }
}

// ---------------------------------------------------------------------------
// ASCII case
// ---------------------------------------------------------------------------

pub open spec fn is_ascii_seq(s: Seq<char>) -> bool {
    forall|i: int| 0 <= i < s.len() ==> (#[trigger] s[i] as u32) < 128
}

pub open spec fn ascii_lower(c: char) -> char {
    if 'A' <= c && c <= 'Z' {
        ((c as int) + 32) as char
    } else {
        c
    }
}

pub open spec fn ascii_upper(c: char) -> char {
    if 'a' <= c && c <= 'z' {
        ((c as int) - 32) as char
    } else {
        c
    }
}

/// `char::to_ascii_lowercase`.
pub fn to_ascii_lowercase(c: char) -> (r: char)
    ensures
        r == ascii_lower(c),
{
    if 'A' <= c && c <= 'Z' {
        ((c as u8) + 32) as char
    } else {
        c
    }
}

/// `char::to_ascii_uppercase`.
pub fn to_ascii_uppercase(c: char) -> (r: char)
    ensures
        r == ascii_upper(c),
{
    if 'a' <= c && c <= 'z' {
        ((c as u8) - 32) as char
    } else {
        c
    }
}

/// Equality up to ASCII case (`str::eq_ignore_ascii_case`, read on characters: ASCII
/// folding keeps non-ASCII characters and their UTF-8 bytes unchanged).
pub open spec fn eq_ignore_ascii_case_spec(a: Seq<char>, b: Seq<char>) -> bool {
    &&& a.len() == b.len()
    &&& forall|i: int| 0 <= i < a.len() ==> ascii_lower(#[trigger] a[i]) == ascii_lower(b[i])
}

pub fn chars_of(s: &str) -> (v: Vec<char>)
    ensures
        v@ == s@,
{
    let mut v: Vec<char> = Vec::new();
    for c in it: s.chars()
        invariant
            v@ == it.seq().take(it.index() as int),
    {
        v.push(c);
    }
    assert(v@ =~= s@);
    v
}

pub fn eq_ignore_ascii_case(a: &str, b: &str) -> (r: bool)
    ensures
        r == eq_ignore_ascii_case_spec(a@, b@),
{
    let av = chars_of(a);
    let bv = chars_of(b);
    if av.len() != bv.len() {
        return false;
    }
    let n = av.len();
    for i in 0..n
        invariant
            n == av@.len(),
            av@.len() == bv@.len(),
            av@ == a@,
            bv@ == b@,
            forall|k: int| 0 <= k < i ==> ascii_lower(#[trigger] av@[k]) == ascii_lower(bv@[k]),
    {
        if to_ascii_lowercase(av[i]) != to_ascii_lowercase(bv[i]) {
            return false;
        }
    }
    true
}

/// String equality on views.
pub fn str_equal(a: &str, b: &str) -> (r: bool)
    ensures
        r == (a@ == b@),
{
    let sa = String::from_str(a);
    let sb = String::from_str(b);
    sa == sb
}

// ---------------------------------------------------------------------------
// Prefixes
// ---------------------------------------------------------------------------

pub open spec fn has_prefix(s: Seq<char>, p: Seq<char>) -> bool {
    p.len() <= s.len() && s.subrange(0, p.len() as int) == p
}

/// `str::starts_with` with a string pattern.
pub fn starts_with(s: &str, p: &str) -> (r: bool)
    ensures
        r == has_prefix(s@, p@),
{
    let sv = chars_of(s);
    let pv = chars_of(p);
    if pv.len() > sv.len() {
        return false;
    }
    let n = pv.len();
    for i in 0..n
        invariant
            n == pv@.len(),
            n <= sv@.len(),
            sv@ == s@,
            pv@ == p@,
            forall|k: int| 0 <= k < i ==> #[trigger] sv@[k] == pv@[k],
    {
        if sv[i] != pv[i] {
            assert(s@.subrange(0, p@.len() as int)[i as int] != p@[i as int]);
            return false;
        }
    }
    assert(s@.subrange(0, p@.len() as int) =~= p@);
    true
}

/// `str::strip_prefix` with a string pattern.
pub fn strip_prefix<'a>(s: &'a str, p: &str) -> (r: Option<&'a str>)
    ensures
        has_prefix(s@, p@) ==> (r matches Some(t) && t@ == s@.skip(p@.len() as int)),
        !has_prefix(s@, p@) ==> r is None,
{
    if starts_with(s, p) {
        let n = s.unicode_len();
        let k = p.unicode_len();
        Some(s.substring_char(k, n))
    } else {
        None
    }
}

/// The part of `s` before its first space (all of `s` if it holds none): what
/// `s.split(' ').next()` yields.
pub open spec fn before_first_space(s: Seq<char>) -> Seq<char>
    decreases s.len(),
{
    if s.len() == 0 {
        s
    } else if s[0] == ' ' {
        Seq::empty()
    } else {
        seq![s[0]] + before_first_space(s.drop_first())
    }
}

// ---------------------------------------------------------------------------
// Trimming
// ---------------------------------------------------------------------------

/// Number of leading characters with the `White_Space` property.
pub open spec fn leading_ws(s: Seq<char>) -> nat
    decreases s.len(),
{
    if s.len() > 0 && white_space(s[0]) {
        1 + leading_ws(s.drop_first())
    } else {
        0
    }
}

/// Number of trailing characters with the `White_Space` property.
pub open spec fn trailing_ws(s: Seq<char>) -> nat
    decreases s.len(),
{
    if s.len() > 0 && white_space(s.last()) {
        1 + trailing_ws(s.drop_last())
    } else {
        0
    }
}

/// `str::trim`: leading and trailing `White_Space` characters removed.
pub open spec fn trimmed(s: Seq<char>) -> Seq<char> {
    let t = s.skip(leading_ws(s) as int);
    t.take(t.len() - trailing_ws(t))
}

pub proof fn lemma_leading_ws_bound(s: Seq<char>)
    ensures
        leading_ws(s) <= s.len(),
    decreases s.len(),
{
    if s.len() > 0 && white_space(s[0]) {
        lemma_leading_ws_bound(s.drop_first());
    }
}

pub proof fn lemma_trailing_ws_bound(s: Seq<char>)
    ensures
        trailing_ws(s) <= s.len(),
    decreases s.len(),
{
    if s.len() > 0 && white_space(s.last()) {
        lemma_trailing_ws_bound(s.drop_last());
    }
}

/// Counting leading white space from position `i` on.
proof fn lemma_leading_ws_step(s: Seq<char>, i: int)
    requires
        0 <= i < s.len(),
    ensures
        white_space(s[i]) ==> leading_ws(s.skip(i)) == 1 + leading_ws(s.skip(i + 1)),
        !white_space(s[i]) ==> leading_ws(s.skip(i)) == 0,
{
    assert(s.skip(i).drop_first() =~= s.skip(i + 1));
}

/// Counting trailing white space of `s.take(j)`.
proof fn lemma_trailing_ws_step(s: Seq<char>, j: int)
    requires
        0 < j <= s.len(),
    ensures
        white_space(s[j - 1]) ==> trailing_ws(s.take(j)) == 1 + trailing_ws(s.take(j - 1)),
        !white_space(s[j - 1]) ==> trailing_ws(s.take(j)) == 0,
{
    assert(s.take(j).drop_last() =~= s.take(j - 1));
}

/// Trailing white space of `x + y` is that of `y` when `y` holds a character that is
/// not white space.
pub proof fn lemma_trailing_ws_concat(x: Seq<char>, y: Seq<char>, k: int)
    requires
        0 <= k < y.len(),
        !white_space(y[k]),
    ensures
        trailing_ws(x + y) == trailing_ws(y),
        trailing_ws(y) < y.len() - k,
    decreases y.len(),
{
    assert((x + y).last() == y.last());
    if white_space(y.last()) {
        assert((x + y).drop_last() =~= x + y.drop_last());
        assert(y.drop_last()[k] == y[k]);
        lemma_trailing_ws_concat(x, y.drop_last(), k);
    }
}

/// White space is the same after ASCII uppercasing, so the counts of leading and
/// trailing white space are too.
pub proof fn lemma_ws_counts_ascii_upper(s: Seq<char>)
    requires
        is_ascii_seq(s),
    ensures
        leading_ws(s.map_values(|c: char| ascii_upper(c))) == leading_ws(s),
        trailing_ws(s.map_values(|c: char| ascii_upper(c))) == trailing_ws(s),
    decreases s.len(),
{
    let u = s.map_values(|c: char| ascii_upper(c));
    if s.len() > 0 {
        assert(is_ascii_seq(s.drop_first())) by {
            assert forall|i: int| 0 <= i < s.drop_first().len() implies (#[trigger] s.drop_first()[i] as u32) < 128 by {
                assert(s.drop_first()[i] == s[i + 1]);
            }
        }
        assert(is_ascii_seq(s.drop_last())) by {
            assert forall|i: int| 0 <= i < s.drop_last().len() implies (#[trigger] s.drop_last()[i] as u32) < 128 by {
                assert(s.drop_last()[i] == s[i]);
            }
        }
        lemma_ws_counts_ascii_upper(s.drop_first());
        lemma_ws_counts_ascii_upper(s.drop_last());
        assert(u.drop_first() =~= s.drop_first().map_values(|c: char| ascii_upper(c)));
        assert(u.drop_last() =~= s.drop_last().map_values(|c: char| ascii_upper(c)));
        assert((s[0] as u32) < 128);
        assert((s[s.len() - 1] as u32) < 128);
        assert(white_space(u[0]) == white_space(s[0]));
        assert(white_space(u.last()) == white_space(s.last()));
    }
}

/// `str::trim`, on the `White_Space` property of `char::is_whitespace`.
pub fn trim(s: &str) -> (r: &str)
    ensures
        r@ == trimmed(s@),
{
    let v = chars_of(s);
    let n = v.len();
    let mut i: usize = 0;
    assert(s@.skip(0) =~= s@);
    while i < n && is_whitespace(v[i])
        invariant
            v@ == s@,
            n == v@.len(),
            i <= n,
            leading_ws(s@) == i + leading_ws(s@.skip(i as int)),
        decreases n - i,
    {
        proof {
            lemma_leading_ws_step(s@, i as int);
        }
        i = i + 1;
    }
    proof {
        if i < n {
            lemma_leading_ws_step(s@, i as int);
        } else {
            assert(s@.skip(i as int).len() == 0);
        }
    }
    let ghost t = s@.skip(i as int);
    assert(t == s@.skip(leading_ws(s@) as int));
    let mut j: usize = n;
    assert(t.take(t.len() as int) =~= t);
    while j > i && is_whitespace(v[j - 1])
        invariant
            v@ == s@,
            n == v@.len(),
            i <= j <= n,
            t == s@.skip(i as int),
            trailing_ws(t) == (n - j) + trailing_ws(t.take(j - i)),
        decreases j,
    {
        proof {
            lemma_trailing_ws_step(t, j - i);
        }
        j = j - 1;
    }
    proof {
        if j > i {
            lemma_trailing_ws_step(t, j - i);
        } else {
            assert(t.take(0).len() == 0);
        }
        lemma_trailing_ws_bound(t);
    }
    let r = s.substring_char(i, j);
    assert(r@ =~= t.take(t.len() - trailing_ws(t)));
    r
}

// ---------------------------------------------------------------------------
// Unsigned decimal parsing (`u128::from_str`, `u64::from_str`)
// ---------------------------------------------------------------------------

pub open spec fn is_digit(c: char) -> bool {
    '0' <= c && c <= '9'
}

pub open spec fn digit_value(c: char) -> nat {
    ((c as int) - ('0' as int)) as nat
}

/// Value of a string of decimal digits, most significant first.
pub open spec fn decimal_value(s: Seq<char>) -> nat
    decreases s.len(),
{
    if s.len() == 0 {
        0
    } else {
        decimal_value(s.drop_last()) * 10 + digit_value(s.last())
    }
}

/// The digits of an unsigned number as `from_str` reads them: one leading `+` is
/// dropped when more follows.
pub open spec fn unsigned_digits(s: Seq<char>) -> Seq<char> {
    if s.len() > 1 && s[0] == '+' {
        s.drop_first()
    } else {
        s
    }
}

/// Whether `from_str` of an unsigned integer type whose largest value is `max`
/// accepts `s`.
pub open spec fn parses_unsigned(s: Seq<char>, max: nat) -> bool {
    let d = unsigned_digits(s);
    &&& d.len() > 0
    &&& forall|i: int| 0 <= i < d.len() ==> is_digit(#[trigger] d[i])
    &&& decimal_value(d) <= max
}

pub open spec fn parse_u128_spec(s: Seq<char>) -> Option<u128> {
    if parses_unsigned(s, u128::MAX as nat) {
        Some(decimal_value(unsigned_digits(s)) as u128)
    } else {
        None
    }
}

pub open spec fn parse_u64_spec(s: Seq<char>) -> Option<u64> {
    if parses_unsigned(s, u64::MAX as nat) {
        Some(decimal_value(unsigned_digits(s)) as u64)
    } else {
        None
    }
}

proof fn lemma_decimal_prefix_le(s: Seq<char>, k: int)
    requires
        0 <= k <= s.len(),
    ensures
        decimal_value(s.take(k)) <= decimal_value(s),
    decreases s.len(),
{
    if k < s.len() {
        assert(s.drop_last().take(k) =~= s.take(k));
        lemma_decimal_prefix_le(s.drop_last(), k);
    } else {
        assert(s.take(k) =~= s);
    }
}

/// `u128::from_str` (radix 10).
pub fn parse_u128(s: &str) -> (r: Option<u128>)
    ensures
        r == parse_u128_spec(s@),
{
    let v = chars_of(s);
    let n = v.len();
    let start: usize = if n > 1 && v[0] == '+' { 1 } else { 0 };
    let ghost d = unsigned_digits(s@);
    assert(d =~= s@.skip(start as int));
    if start == n {
        return None;
    }
    let mut acc: u128 = 0;
    let mut i: usize = start;
    assert(d.take(0) =~= Seq::<char>::empty());
    while i < n
        invariant
            v@ == s@,
            n == v@.len(),
            start <= i <= n,
            d == s@.skip(start as int),
            d == unsigned_digits(s@),
            acc == decimal_value(d.take(i - start)),
            forall|k: int| 0 <= k < i - start ==> is_digit(#[trigger] d[k]),
        decreases n - i,
    {
        let c = v[i];
        if !('0' <= c && c <= '9') {
            assert(d[i - start] == c);
            assert(!is_digit(d[i - start]));
            return None;
        }
        let dv = ((c as u32) - ('0' as u32)) as u128;
        assert(d.take(i - start + 1).drop_last() =~= d.take(i - start));
        assert(d.take(i - start + 1).last() == c);
        assert(decimal_value(d.take(i - start + 1)) == acc * 10 + dv);
        match acc.checked_mul(10) {
            Some(m) => match m.checked_add(dv) {
                Some(next) => {
                    acc = next;
                },
                None => {
                    proof {
                        lemma_decimal_prefix_le(d, i - start + 1);
                    }
                    return None;
                },
            },
            None => {
                proof {
                    lemma_decimal_prefix_le(d, i - start + 1);
                }
                return None;
            },
        }
        i = i + 1;
    }
    assert(d.take(n - start) =~= d);
    Some(acc)
}

/// `u64::from_str` (radix 10).
pub fn parse_u64(s: &str) -> (r: Option<u64>)
    ensures
        r == parse_u64_spec(s@),
{
    match parse_u128(s) {
        Some(x) => {
            if x <= u64::MAX as u128 {
                Some(x as u64)
            } else {
                None
            }
        },
        None => None,
    }
}

} // verus!
