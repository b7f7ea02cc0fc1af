//! Character classes, span scanning and mnemonic matching.

use vstd::prelude::*;

verus! {

/// `'0'..='9'`
pub open spec fn ascii_digit(c: u8) -> bool {
    48 <= c && c <= 57
}

/// `'A'..='Z'`
pub open spec fn ascii_upper(c: u8) -> bool {
    65 <= c && c <= 90
}

/// `'a'..='z'`
pub open spec fn ascii_lower(c: u8) -> bool {
    97 <= c && c <= 122
}

pub open spec fn ascii_alpha(c: u8) -> bool {
    ascii_upper(c) || ascii_lower(c)
}

pub open spec fn ascii_alnum(c: u8) -> bool {
    ascii_alpha(c) || ascii_digit(c)
}

/// Space, tab, line feed, form feed or carriage return.
pub open spec fn ascii_ws(c: u8) -> bool {
    c == 32 || c == 9 || c == 10 || c == 12 || c == 13
}

pub open spec fn ascii(c: u8) -> bool {
    c < 128
}

pub open spec fn lower(c: u8) -> u8 {
    if ascii_upper(c) {
        (c + 32) as u8
    } else {
        c
    }
}

pub open spec fn eq_ignore_case(a: u8, b: u8) -> bool {
    lower(a) == lower(b)
}

/// Two byte strings are equal when ASCII case is ignored.
pub open spec fn seq_eq_ignore_case(a: Seq<u8>, b: Seq<u8>) -> bool {
    a.len() == b.len() && forall|i: int| 0 <= i < a.len() ==> eq_ignore_case(#[trigger] a[i], b[i])
}

/// Length of the longest prefix of `s` whose bytes all satisfy `p`.
pub open spec fn span(s: Seq<u8>, p: spec_fn(u8) -> bool) -> nat
    decreases s.len(),
{
    if s.len() > 0 && p(s[0]) {
        1 + span(s.drop_first(), p)
    } else {
        0
    }
}

/// `span` is the first index whose byte fails `p` (or the length).
pub proof fn lemma_span(s: Seq<u8>, p: spec_fn(u8) -> bool, n: int)
    requires
        0 <= n <= s.len(),
        forall|j: int| 0 <= j < n ==> p(#[trigger] s[j]),
        n == s.len() || !p(s[n]),
    ensures
        span(s, p) == n,
    decreases n,
{
    if n > 0 {
        assert forall|j: int| 0 <= j < n - 1 implies p(#[trigger] s.drop_first()[j]) by {
            assert(s.drop_first()[j] == s[j + 1]);
        }
        lemma_span(s.drop_first(), p, n - 1);
    }
}

/// Bytes a span scan in this crate can run over.
pub enum CharClass {
    /// `'0'..='9'`
    Digit,
    /// ASCII whitespace
    Space,
    /// Alphanumeric or `_` (program mnemonics and character data)
    Mnemonic,
    /// Alphanumeric, `-`, `/` or `.` (suffix data)
    Suffix,
    /// Digits, `+`, `-` or `!` (channel specs)
    ChannelSpec,
    /// Upper case letters and digits (the short form of a mnemonic)
    ShortForm,
    /// Upper case letters
    Upper,
}

pub open spec fn class_pred(cls: CharClass) -> spec_fn(u8) -> bool {
    match cls {
        CharClass::Digit => |c: u8| ascii_digit(c),
        CharClass::Space => |c: u8| ascii_ws(c),
        CharClass::Mnemonic => |c: u8| ascii_alnum(c) || c == 95,
        CharClass::Suffix => |c: u8| ascii_alnum(c) || c == 45 || c == 47 || c == 46,
        CharClass::ChannelSpec => |c: u8| ascii_digit(c) || c == 43 || c == 45 || c == 33,
        CharClass::ShortForm => |c: u8| ascii_upper(c) || ascii_digit(c),
        CharClass::Upper => |c: u8| ascii_upper(c),
    }
}

pub fn is_ascii_digit(c: u8) -> (b: bool)
    ensures
        b == ascii_digit(c),
{
    48 <= c && c <= 57
}

pub fn is_ascii_upper(c: u8) -> (b: bool)
    ensures
        b == ascii_upper(c),
{
    65 <= c && c <= 90
}

pub fn is_ascii_lower(c: u8) -> (b: bool)
    ensures
        b == ascii_lower(c),
{
    97 <= c && c <= 122
}

pub fn is_ascii_alpha(c: u8) -> (b: bool)
    ensures
        b == ascii_alpha(c),
{
    is_ascii_upper(c) || is_ascii_lower(c)
}

pub fn is_ascii_alnum(c: u8) -> (b: bool)
    ensures
        b == ascii_alnum(c),
{
    is_ascii_alpha(c) || is_ascii_digit(c)
}

pub fn is_ascii_ws(c: u8) -> (b: bool)
    ensures
        b == ascii_ws(c),
{
    c == 32 || c == 9 || c == 10 || c == 12 || c == 13
}

pub fn to_lower(c: u8) -> (l: u8)
    ensures
        l == lower(c),
{
    if is_ascii_upper(c) {
        c + 32
    } else {
        c
    }
}

/// ASCII case-insensitive comparison of two byte strings.
pub fn eq_ignore_ascii_case(a: &[u8], b: &[u8]) -> (r: bool)
    ensures
        r == seq_eq_ignore_case(a@, b@),
{
    if a.len() != b.len() {
        return false;
    }
    let mut i: usize = 0;
    while i < a.len()
        invariant
            i <= a.len(),
            a.len() == b.len(),
            forall|j: int| 0 <= j < i ==> eq_ignore_case(#[trigger] a@[j], b@[j]),
        decreases a.len() - i,
    {
        if to_lower(a[i]) != to_lower(b[i]) {
            return false;
        }
        i += 1;
    }
    true
}

pub fn in_class(cls: &CharClass, c: u8) -> (b: bool)
    ensures
        b == (class_pred(*cls))(c),
{
    match cls {
        CharClass::Digit => is_ascii_digit(c),
        CharClass::Space => is_ascii_ws(c),
        CharClass::Mnemonic => is_ascii_alnum(c) || c == 95,
        CharClass::Suffix => is_ascii_alnum(c) || c == 45 || c == 47 || c == 46,
        CharClass::ChannelSpec => is_ascii_digit(c) || c == 43 || c == 45 || c == 33,
        CharClass::ShortForm => is_ascii_upper(c) || is_ascii_digit(c),
        CharClass::Upper => is_ascii_upper(c),
    }
}

/// Position just past the bytes of class `cls` that start at `pos`.
pub fn scan(buf: &[u8], pos: usize, cls: CharClass) -> (end: usize)
    requires
        pos <= buf@.len(),
    ensures
        end == pos + span(buf@.skip(pos as int), class_pred(cls)),
        end <= buf@.len(),
{
    let mut i: usize = pos;
    while i < buf.len() && in_class(&cls, buf[i])
        invariant
            pos <= i <= buf@.len(),
            forall|j: int| pos <= j < i ==> (class_pred(cls))(#[trigger] buf@[j]),
        decreases buf@.len() - i,
    {
        i += 1;
    }
    proof {
        let s = buf@.skip(pos as int);
        assert forall|j: int| 0 <= j < i - pos implies (class_pred(cls))(#[trigger] s[j]) by {
            assert(s[j] == buf@[pos + j]);
        }
        lemma_span(s, class_pred(cls), i - pos);
    }
    i
}

/// Skip continuous digits starting at `*pos`. Returns true if any were skipped.
pub fn skip_digits(buf: &[u8], pos: &mut usize) -> (any: bool)
    requires
        *old(pos) <= buf@.len(),
    ensures
        *final(pos) == *old(pos) + span(buf@.skip(*old(pos) as int), class_pred(CharClass::Digit)),
        any == (*final(pos) > *old(pos)),
        *final(pos) <= buf@.len(),
{
    let start = *pos;
    *pos = scan(buf, start, CharClass::Digit);
    *pos > start
}

/// Skip one `+` or `-` at `*pos`, if any.
pub fn skip_sign(buf: &[u8], pos: &mut usize)
    requires
        *old(pos) <= buf@.len(),
    ensures
        *final(pos) == if *old(pos) < buf@.len() && (buf@[*old(pos) as int] == 43 || buf@[*old(pos) as int] == 45) {
            *old(pos) + 1
        } else {
            *old(pos) as int
        },
{
    if *pos < buf.len() && (buf[*pos] == 43 || buf[*pos] == 45) {
        *pos = *pos + 1;
    }
}

/// Skip continuous whitespace starting at `*pos`.
pub fn skip_ws(buf: &[u8], pos: &mut usize)
    requires
        *old(pos) <= buf@.len(),
    ensures
        *final(pos) == *old(pos) + span(buf@.skip(*old(pos) as int), class_pred(CharClass::Space)),
        *final(pos) <= buf@.len(),
{
    let start = *pos;
    *pos = scan(buf, start, CharClass::Space);
}

/// Number of trailing digits of `m`.
pub open spec fn trailing_digits(m: Seq<u8>) -> nat
    decreases m.len(),
{
    if m.len() > 0 && ascii_digit(m.last()) {
        1 + trailing_digits(m.drop_last())
    } else {
        0
    }
}

/// Where `m` splits into a head and a numeric suffix: `Some(k)` when `m`
/// ends with digits and has at least one byte that is not a digit, `k`
/// being the length of the head.
pub open spec fn split_point(m: Seq<u8>) -> Option<nat> {
    if 0 < trailing_digits(m) && trailing_digits(m) < m.len() {
        Some((m.len() - trailing_digits(m)) as nat)
    } else {
        None
    }
}

proof fn lemma_trailing_digits(m: Seq<u8>, k: int)
    requires
        0 <= k <= m.len(),
        forall|j: int| k <= j < m.len() ==> ascii_digit(#[trigger] m[j]),
        k == 0 || !ascii_digit(m[k - 1]),
    ensures
        trailing_digits(m) == m.len() - k,
    decreases m.len() - k,
{
    if m.len() > k {
        assert forall|j: int| k <= j < m.drop_last().len() implies ascii_digit(
            #[trigger] m.drop_last()[j],
        ) by {
            assert(m.drop_last()[j] == m[j]);
        }
        if k > 0 {
            assert(m.drop_last()[k - 1] == m[k - 1]);
        }
        lemma_trailing_digits(m.drop_last(), k);
    }
}

/// Split a mnemonic of the form "ABC123" into ("ABC", "123").
/// Returns None if the mnemonic does not end with digits or has nothing but digits.
pub fn mnemonic_split_index(mnemonic: &[u8]) -> (r: Option<(&[u8], &[u8])>)
    ensures
        match split_point(mnemonic@) {
            Some(k) => r matches Some((head, index)) && head@ == mnemonic@.take(k as int)
                && index@ == mnemonic@.skip(k as int),
            None => r is None,
        },
{
    let mut k: usize = mnemonic.len();
    while k > 0 && is_ascii_digit(mnemonic[k - 1])
        invariant
            k <= mnemonic@.len(),
            forall|j: int| k <= j < mnemonic@.len() ==> ascii_digit(#[trigger] mnemonic@[j]),
        decreases k,
    {
        k -= 1;
    }
    proof {
        lemma_trailing_digits(mnemonic@, k as int);
    }
    if k == 0 || k == mnemonic.len() {
        None
    } else {
        Some((&mnemonic[0..k], &mnemonic[k..mnemonic.len()]))
    }
}

/// The mnemonic comparison of SCPI-99 6.2.1: `s` is either the long form of
/// `mnemonic` or its short form (the part before the first lower case
/// letter), ignoring case.
///
/// The short form is taken here as: `s` covers a prefix of `mnemonic` with
/// no lower case letter, and what `s` leaves out holds neither upper case
/// letters nor digits.
pub open spec fn mnemonic_eq(mnemonic: Seq<u8>, s: Seq<u8>) -> bool {
    &&& mnemonic.len() >= s.len()
    &&& forall|i: int| 0 <= i < s.len() ==> eq_ignore_case(#[trigger] mnemonic[i], s[i])
    &&& s.len() < mnemonic.len() ==> {
        &&& forall|i: int| 0 <= i < s.len() ==> !ascii_lower(#[trigger] mnemonic[i])
        &&& forall|i: int|
            s.len() <= i < mnemonic.len() ==> !ascii_upper(#[trigger] mnemonic[i]) && !ascii_digit(
                mnemonic[i],
            )
    }
}

/// Compare a string to a mnemonic
/// # Arguments
/// * `mnemonic` - Reference mnemonic to compare with (Example `TRIGger2`)
/// * `s` - String to compare to mnemonic
pub fn mnemonic_compare(mnemonic: &[u8], s: &[u8]) -> (r: bool)
    ensures
        r == mnemonic_eq(mnemonic@, s@),
{
    if mnemonic.len() < s.len() {
        return false;
    }
    // optional: no lower case letter of the mnemonic has been matched yet
    let mut optional = true;
    let mut i: usize = 0;
    while i < mnemonic.len()
        invariant
            i <= mnemonic@.len(),
            mnemonic@.len() >= s@.len(),
            forall|j: int| 0 <= j < i && j < s@.len() ==> eq_ignore_case(#[trigger] mnemonic@[j], s@[j]),
            optional == (forall|j: int| 0 <= j < i && j < s@.len() ==> !ascii_lower(#[trigger] mnemonic@[j])),
            forall|j: int|
                s@.len() <= j < i ==> !ascii_upper(#[trigger] mnemonic@[j]) && !ascii_digit(mnemonic@[j]),
            i > s@.len() ==> optional,
        decreases mnemonic@.len() - i,
    {
        let m = mnemonic[i];
        if i < s.len() {
            if is_ascii_lower(m) {
                optional = false;
            }
            if to_lower(m) != to_lower(s[i]) {
                return false;
            }
        } else {
            if is_ascii_upper(m) || is_ascii_digit(m) || !optional {
                return false;
            }
        }
        i += 1;
    }
    true
}

/// True when `a` and `b` are the same byte string.
pub fn bytes_eq(a: &[u8], b: &[u8]) -> (r: bool)
    ensures
        r == (a@ == b@),
{
    if a.len() != b.len() {
        return false;
    }
    let mut i: usize = 0;
    while i < a.len()
        invariant
            i <= a.len(),
            a.len() == b.len(),
            forall|j: int| 0 <= j < i ==> a@[j] == b@[j],
        decreases a.len() - i,
    {
        if a[i] != b[i] {
            return false;
        }
        i += 1;
    }
    assert(a@ =~= b@);
    true
}

/// `seq![b'1']`
pub open spec fn one() -> Seq<u8> {
    seq![49u8]
}

/// Header match of SCPI-99 6.2.5: a numeric header suffix is optional when it
/// is `1` and must match exactly otherwise.
pub open spec fn mnemonic_matches(mnemonic: Seq<u8>, s: Seq<u8>) -> bool {
    mnemonic_eq(mnemonic, s) || match (split_point(mnemonic), split_point(s)) {
        (None, None) => false,
        (Some(k), None) => mnemonic_eq(mnemonic.take(k as int), s) && mnemonic.skip(k as int) == one(),
        (None, Some(k)) => mnemonic_eq(mnemonic, s.take(k as int)) && s.skip(k as int) == one(),
        (Some(k), Some(l)) => mnemonic_eq(mnemonic.take(k as int), s.take(l as int)) && mnemonic.skip(
            k as int,
        ) == s.skip(l as int),
    }
}

/// Match a header `s` against a mnemonic with optional numeric suffix.
///
/// * `head[er]` == `HEADer`
/// * `head[er]1` == `HEADer`
/// * `head[er]` == `HEADer1`
/// * `head[er]<N>` == `HEADer<N>`
pub fn mnemonic_match(mnemonic: &[u8], s: &[u8]) -> (r: bool)
    ensures
        r == mnemonic_matches(mnemonic@, s@),
{
    let one_str: &[u8] = &[49u8];
    assert(one_str@ =~= one());
    if mnemonic_compare(mnemonic, s) {
        return true;
    }
    match (mnemonic_split_index(mnemonic), mnemonic_split_index(s)) {
        (None, None) => false,
        (Some((m, index)), None) => mnemonic_compare(m, s) && bytes_eq(index, one_str),
        (None, Some((x, index))) => mnemonic_compare(mnemonic, x) && bytes_eq(index, one_str),
        (Some((m, index1)), Some((x, index2))) => mnemonic_compare(m, x) && bytes_eq(index1, index2),
    }
}

/// Value of an ASCII digit in the given radix (radix at most 36).
pub open spec fn digit_value(digit: u8, radix: u8) -> Option<u32> {
    if ascii_digit(digit) && digit - 48 < radix {
        Some((digit - 48) as u32)
    } else if radix > 10 && ascii_lower(lower(digit)) && lower(digit) - 97 < radix - 10 {
        Some((lower(digit) - 97 + 10) as u32)
    } else {
        None
    }
}

pub fn ascii_to_digit(digit: u8, radix: u8) -> (r: Option<u32>)
    ensures
        r == digit_value(digit, radix),
{
    let lowercase = to_lower(digit);
    if is_ascii_digit(digit) && digit - 48 < radix {
        Some((digit - 48) as u32)
    } else if radix > 10 && is_ascii_alpha(lowercase) && lowercase - 97 < radix - 10 {
        Some((lowercase - 97 + 10) as u32)
    } else {
        None
    }
}

} // verus!

verus! {

/// Mnemonics compare without regard to case: two headers that differ only
/// in case match the same mnemonics.
pub proof fn lemma_mnemonic_case_insensitive(mnemonic: Seq<u8>, s: Seq<u8>, t: Seq<u8>)
    requires
        seq_eq_ignore_case(s, t),
    ensures
        mnemonic_eq(mnemonic, s) == mnemonic_eq(mnemonic, t),
{
    assert(s.len() == t.len());
    if mnemonic_eq(mnemonic, s) {
        assert forall|i: int| 0 <= i < t.len() implies eq_ignore_case(#[trigger] mnemonic[i], t[i]) by {
            assert(eq_ignore_case(s[i], t[i]));
            assert(eq_ignore_case(mnemonic[i], s[i]));
        }
    }
    if mnemonic_eq(mnemonic, t) {
        assert forall|i: int| 0 <= i < s.len() implies eq_ignore_case(#[trigger] mnemonic[i], s[i]) by {
            assert(eq_ignore_case(s[i], t[i]));
            assert(eq_ignore_case(mnemonic[i], t[i]));
        }
    }
}

/// The long form of a mnemonic matches it.
pub proof fn lemma_long_form_matches(mnemonic: Seq<u8>)
    ensures
        mnemonic_eq(mnemonic, mnemonic),
        mnemonic_matches(mnemonic, mnemonic),
{
}

/// A numeric suffix `1` may be left out on either side: `head[er]1` matches
/// `HEADer` and `head[er]` matches `HEADer1`, for a header `s` that matches
/// the mnemonic `m` (neither ending in a digit, `s` not empty).
pub proof fn lemma_suffix_one_optional(m: Seq<u8>, s: Seq<u8>)
    requires
        mnemonic_eq(m, s),
        s.len() > 0,
        !ascii_digit(s.last()),
        m.len() > 0,
        !ascii_digit(m.last()),
    ensures
        mnemonic_matches(m, s + one()),
        mnemonic_matches(m + one(), s),
{
    let s1 = s + one();
    let m1 = m + one();
    assert(s1.drop_last() =~= s);
    assert(m1.drop_last() =~= m);
    assert(trailing_digits(s) == 0);
    assert(trailing_digits(m) == 0);
    assert(trailing_digits(s1) == 1);
    assert(trailing_digits(m1) == 1);
    assert(s1.take(s.len() as int) =~= s);
    assert(s1.skip(s.len() as int) =~= one());
    assert(m1.take(m.len() as int) =~= m);
    assert(m1.skip(m.len() as int) =~= one());
    assert(split_point(m) is None);
    assert(split_point(s) is None);
}

} // verus!
