//! Character-level helpers shared by the parsers and renderers of the crate:
//! decimal and hexadecimal rendering, Unicode whitespace trimming, and the
//! conversions between `&str`, `String` and `Vec<char>`.

use vstd::prelude::*;

verus! {

broadcast use vstd::string::group_string_axioms;

// ---------------------------------------------------------------------------
// Specifications
// ---------------------------------------------------------------------------

/// `char::is_ascii_digit`.
pub open spec fn is_ascii_digit(c: char) -> bool {
    '0' <= c && c <= '9'
}

/// Numeric value of an ASCII digit.
pub open spec fn digit_of(c: char) -> nat {
    ((c as int) - ('0' as int)) as nat
}

/// The ASCII digit for `d` (`d < 10`).
pub open spec fn digit_char(d: nat) -> char {
    ((d + ('0' as int)) as u8) as char
}

/// Lower-case hexadecimal digit for `d` (`d < 16`).
pub open spec fn hex_char(d: nat) -> char {
    if d < 10 {
        digit_char(d)
    } else {
        ((d - 10 + ('a' as int)) as u8) as char
    }
}

/// Every character of `s` is an ASCII digit.
pub open spec fn all_digits(s: Seq<char>) -> bool {
    forall|i: int| 0 <= i < s.len() ==> #[trigger] is_ascii_digit(s[i])
}

/// Value of a sequence of ASCII digits read in base 10 (0 for the empty sequence).
pub open spec fn digits_value(s: Seq<char>) -> nat
    decreases s.len(),
{
    if s.len() == 0 {
        0
    } else {
        digits_value(s.drop_last()) * 10 + digit_of(s.last())
    }
}

/// Shortest base-10 rendering of a natural number, as `Display` writes it.
pub open spec fn dec_nat(n: nat) -> Seq<char>
    decreases n,
{
    if n < 10 {
        seq![digit_char(n)]
    } else {
        dec_nat(n / 10).push(digit_char(n % 10))
    }
}

/// Base-10 rendering of an integer, with a leading `-` for negative values.
pub open spec fn dec_int(n: int) -> Seq<char> {
    if n < 0 {
        seq!['-'] + dec_nat((-n) as nat)
    } else {
        dec_nat(n as nat)
    }
}

/// `format!("{:02}", n)` for a natural number.
pub open spec fn dec_pad2(n: nat) -> Seq<char> {
    if n < 10 {
        seq!['0'] + dec_nat(n)
    } else {
        dec_nat(n)
    }
}

/// The `width` lowest hexadecimal digits of `n`, lower case, most significant first.
pub open spec fn hex_fixed(n: nat, width: nat) -> Seq<char>
    decreases width,
{
    if width == 0 {
        Seq::empty()
    } else {
        hex_fixed(n / 16, (width - 1) as nat).push(hex_char(n % 16))
    }
}

/// `char::is_whitespace`: the Unicode `White_Space` property.
pub open spec fn is_whitespace(c: char) -> bool {
    ||| c == ' '
    ||| ('\u{9}' <= c && c <= '\u{d}')
    ||| c == '\u{85}'
    ||| c == '\u{a0}'
    ||| c == '\u{1680}'
    ||| ('\u{2000}' <= c && c <= '\u{200a}')
    ||| c == '\u{2028}'
    ||| c == '\u{2029}'
    ||| c == '\u{202f}'
    ||| c == '\u{205f}'
    ||| c == '\u{3000}'
}

/// `str::trim_start`.
pub open spec fn trim_start(s: Seq<char>) -> Seq<char>
    decreases s.len(),
{
    if s.len() > 0 && is_whitespace(s[0]) {
        trim_start(s.drop_first())
    } else {
        s
    }
}

/// `str::trim_end`.
pub open spec fn trim_end(s: Seq<char>) -> Seq<char>
    decreases s.len(),
{
    if s.len() > 0 && is_whitespace(s.last()) {
        trim_end(s.drop_last())
    } else {
        s
    }
}

/// `str::trim`: whitespace removed from both ends.
pub open spec fn trim(s: Seq<char>) -> Seq<char> {
    trim_end(trim_start(s))
}

// ---------------------------------------------------------------------------
// Lemmas
// ---------------------------------------------------------------------------

/// Trimming from the front is determined by the first non-whitespace position.
proof fn lemma_trim_start_at(s: Seq<char>, k: int)
    requires
        0 <= k <= s.len(),
        forall|i: int| 0 <= i < k ==> is_whitespace(#[trigger] s[i]),
        k == s.len() || !is_whitespace(s[k]),
    ensures
        trim_start(s) == s.subrange(k, s.len() as int),
    decreases k,
{
    if k == 0 {
        assert(s.subrange(0, s.len() as int) =~= s);
    } else {
        let t = s.drop_first();
        assert forall|i: int| 0 <= i < k - 1 implies is_whitespace(#[trigger] t[i]) by {
            assert(t[i] == s[i + 1]);
        }
        if k - 1 < t.len() {
            assert(t[k - 1] == s[k]);
        }
        lemma_trim_start_at(t, k - 1);
        assert(t.subrange(k - 1, t.len() as int) =~= s.subrange(k, s.len() as int));
    }
}

/// Trimming from the back is determined by the last non-whitespace position.
proof fn lemma_trim_end_at(s: Seq<char>, e: int)
    requires
        0 <= e <= s.len(),
        forall|i: int| e <= i < s.len() ==> is_whitespace(#[trigger] s[i]),
        e == 0 || !is_whitespace(s[e - 1]),
    ensures
        trim_end(s) == s.subrange(0, e),
    decreases s.len() - e,
{
    if e == s.len() {
        assert(s.subrange(0, e) =~= s);
    } else {
        let t = s.drop_last();
        assert forall|i: int| e <= i < t.len() implies is_whitespace(#[trigger] t[i]) by {
            assert(t[i] == s[i]);
        }
        if e > 0 {
            assert(t[e - 1] == s[e - 1]);
        }
        lemma_trim_end_at(t, e);
        assert(t.subrange(0, e) =~= s.subrange(0, e));
    }
}

// ---------------------------------------------------------------------------
// Executable helpers
// ---------------------------------------------------------------------------

/// Appends one character to a string (`String::push`).
#[verifier::external_body]
pub(crate) fn push_char(s: &mut String, c: char)
    ensures
        final(s)@ == old(s)@.push(c),
{
    s.push(c);
}

/// `char::is_whitespace`.
pub fn char_is_whitespace(c: char) -> (b: bool)
    ensures
        b == is_whitespace(c),
{
    c == ' ' || ('\u{9}' <= c && c <= '\u{d}') || c == '\u{85}' || c == '\u{a0}' || c
        == '\u{1680}' || ('\u{2000}' <= c && c <= '\u{200a}') || c == '\u{2028}' || c
        == '\u{2029}' || c == '\u{202f}' || c == '\u{205f}' || c == '\u{3000}'
}

/// The characters of a string slice.
pub fn str_chars(s: &str) -> (v: Vec<char>)
    ensures
        v@ == s@,
{
    let mut v: Vec<char> = Vec::new();
    for c in it: s.chars()
        invariant
            v@ == it.seq().take(it.index() as int),
            it.seq() == s@,
    {
        v.push(c);
    }
    v
}

/// Appends the characters `v[from..to]` to `out`.
pub fn push_chars(out: &mut String, v: &Vec<char>, from: usize, to: usize)
    requires
        from <= to <= v.len(),
    ensures
        final(out)@ == old(out)@ + v@.subrange(from as int, to as int),
{
    let mut i = from;
    while i < to
        invariant
            from <= i <= to <= v.len(),
            out@ == old(out)@ + v@.subrange(from as int, i as int),
        decreases to - i,
    {
        push_char(out, v[i]);
        i = i + 1;
        assert(v@.subrange(from as int, i as int) =~= v@.subrange(from as int, (i - 1) as int).push(
            v@[i - 1],
        ));
    }
}

/// Bounds `(start, end)` such that `v[start..end]` is `v` with leading and
/// trailing whitespace removed.
pub fn trim_bounds(v: &Vec<char>) -> (r: (usize, usize))
    ensures
        r.0 <= r.1 <= v.len(),
        v@.subrange(r.0 as int, r.1 as int) == trim(v@),
{
    let n = v.len();
    let mut start: usize = 0;
    while start < n && char_is_whitespace(v[start])
        invariant
            start <= n == v.len(),
            forall|i: int| 0 <= i < start ==> is_whitespace(#[trigger] v@[i]),
        decreases n - start,
    {
        start = start + 1;
    }
    proof {
        lemma_trim_start_at(v@, start as int);
    }
    let ghost ts = v@.subrange(start as int, n as int);
    let mut end: usize = n;
    while end > start && char_is_whitespace(v[end - 1])
        invariant
            start <= end <= n == v.len(),
            ts == v@.subrange(start as int, n as int),
            forall|i: int| end <= i < n ==> is_whitespace(#[trigger] v@[i]),
        decreases end - start,
    {
        end = end - 1;
    }
    proof {
        let e = end - start;
        assert forall|i: int| e <= i < ts.len() implies is_whitespace(#[trigger] ts[i]) by {
            assert(ts[i] == v@[i + start]);
        }
        if e > 0 {
            assert(ts[e - 1] == v@[end - 1]);
        }
        lemma_trim_end_at(ts, e);
        assert(ts.subrange(0, e) =~= v@.subrange(start as int, end as int));
    }
    (start, end)
}

/// The characters of `s` with surrounding whitespace removed (`str::trim`).
pub fn trimmed_chars(s: &str) -> (t: Vec<char>)
    ensures
        t@ == trim(s@),
{
    let v = str_chars(s);
    let (a, b) = trim_bounds(&v);
    let mut t: Vec<char> = Vec::new();
    let mut i = a;
    while i < b
        invariant
            a <= i <= b <= v.len(),
            t@ == v@.subrange(a as int, i as int),
        decreases b - i,
    {
        t.push(v[i]);
        i = i + 1;
        assert(t@ =~= v@.subrange(a as int, i as int));
    }
    t
}

/// Whether two character sequences are equal.
pub fn chars_eq(a: &Vec<char>, b: &Vec<char>) -> (r: bool)
    ensures
        r == (a@ == b@),
{
    if a.len() != b.len() {
        return false;
    }
    let mut i: usize = 0;
    while i < a.len()
        invariant
            a.len() == b.len(),
            i <= a.len(),
            forall|j: int| 0 <= j < i ==> a@[j] == b@[j],
        decreases a.len() - i,
    {
        if a[i] != b[i] {
            return false;
        }
        i = i + 1;
    }
    assert(a@ =~= b@);
    true
}

/// The ASCII digit for `d`.
pub fn digit_to_char(d: u64) -> (c: char)
    requires
        d < 10,
    ensures
        c == digit_char(d as nat),
{
    let b: u8 = (d as u8) + 48u8;
    b as char
}

/// The lower-case hexadecimal digit for `d`.
pub fn hex_digit_to_char(d: u64) -> (c: char)
    requires
        d < 16,
    ensures
        c == hex_char(d as nat),
{
    if d < 10 {
        digit_to_char(d)
    } else {
        let b: u8 = (d as u8) - 10u8 + 97u8;
        b as char
    }
}

/// Appends the decimal rendering of `n` to `out`.
pub fn push_dec_u128(out: &mut String, n: u128)
    ensures
        final(out)@ == old(out)@ + dec_nat(n as nat),
{
    let mut digits: Vec<char> = Vec::new();
    let mut q: u128 = n;
    while q >= 10
        invariant
            dec_nat(n as nat) == dec_nat(q as nat) + digits@,
        decreases q,
    {
        let d = (q % 10) as u64;
        let c = digit_to_char(d);
        let ghost prev = digits@;
        digits.insert(0, c);
        proof {
            assert(dec_nat(q as nat) == dec_nat((q / 10) as nat).push(digit_char((q % 10) as nat)));
            assert(dec_nat((q / 10) as nat).push(c) + prev =~= dec_nat((q / 10) as nat)
                + digits@) by {
                assert(digits@ =~= seq![c] + prev);
            }
        }
        q = q / 10;
    }
    let c = digit_to_char(q as u64);
    digits.insert(0, c);
    assert(digits@ =~= dec_nat(n as nat));
    push_chars(out, &digits, 0, digits.len());
    assert(digits@.subrange(0, digits.len() as int) =~= digits@);
}

/// Appends the decimal rendering of `n` to `out`.
pub fn push_dec_u64(out: &mut String, n: u64)
    ensures
        final(out)@ == old(out)@ + dec_nat(n as nat),
{
    push_dec_u128(out, n as u128);
}

/// Appends the decimal rendering of `n` (with a `-` when negative) to `out`.
pub fn push_dec_i64(out: &mut String, n: i64)
    ensures
        final(out)@ == old(out)@ + dec_int(n as int),
{
    if n < 0 {
        push_char(out, '-');
        let m: i128 = -(n as i128);
        push_dec_u64(out, m as u64);
        assert(final(out)@ =~= old(out)@ + dec_int(n as int));
    } else {
        push_dec_u64(out, n as u64);
    }
}

/// Appends `n` rendered with at least two digits (`{:02}`).
pub fn push_dec_pad2(out: &mut String, n: u128)
    ensures
        final(out)@ == old(out)@ + dec_pad2(n as nat),
{
    if n < 10 {
        push_char(out, '0');
        push_dec_u128(out, n);
        assert(final(out)@ =~= old(out)@ + dec_pad2(n as nat));
    } else {
        push_dec_u128(out, n);
    }
}

/// Appends the `width` lowest hexadecimal digits of `n` (lower case, zero padded).
pub fn push_hex_fixed(out: &mut String, n: u64, width: u64)
    ensures
        final(out)@ == old(out)@ + hex_fixed(n as nat, width as nat),
{
    let mut digits: Vec<char> = Vec::new();
    let mut q: u64 = n;
    let mut w: u64 = width;
    while w > 0
        invariant
            w <= width,
            hex_fixed(n as nat, width as nat) == hex_fixed(q as nat, w as nat) + digits@,
        decreases w,
    {
        let c = hex_digit_to_char(q % 16);
        let ghost prev = digits@;
        digits.insert(0, c);
        proof {
            assert(hex_fixed(q as nat, w as nat) == hex_fixed((q / 16) as nat, (w - 1) as nat).push(
                c,
            ));
            assert(digits@ =~= seq![c] + prev);
            assert(hex_fixed((q / 16) as nat, (w - 1) as nat).push(c) + prev
                =~= hex_fixed((q / 16) as nat, (w - 1) as nat) + digits@);
        }
        q = q / 16;
        w = w - 1;
    }
    assert(hex_fixed(q as nat, 0) =~= Seq::<char>::empty());
    assert(digits@ =~= hex_fixed(n as nat, width as nat));
    push_chars(out, &digits, 0, digits.len());
    assert(digits@.subrange(0, digits.len() as int) =~= digits@);
}

/// `list` joined with `sep` between consecutive items.
pub open spec fn joined(list: Seq<Seq<char>>, sep: Seq<char>) -> Seq<char>
    decreases list.len(),
{
    if list.len() == 0 {
        Seq::empty()
    } else if list.len() == 1 {
        list[0]
    } else {
        joined(list.drop_last(), sep) + sep + list.last()
    }
}

/// The texts of a list of strings.
pub open spec fn string_views(v: Seq<String>) -> Seq<Seq<char>> {
    v.map_values(|s: String| s@)
}

/// Appends the items of `list` separated by `sep` (`list.join(sep)`).
pub fn push_joined(out: &mut String, list: &Vec<String>, sep: &str)
    ensures
        final(out)@ == old(out)@ + joined(string_views(list@), sep@),
{
    let ghost views = string_views(list@);
    let mut i: usize = 0;
    while i < list.len()
        invariant
            i <= list.len(),
            views == string_views(list@),
            out@ == old(out)@ + joined(views.take(i as int), sep@),
        decreases list.len() - i,
    {
        let ghost before = out@;
        if i > 0 {
            out.append(sep);
        }
        out.append(list[i].as_str());
        proof {
            let t = views.take((i + 1) as int);
            assert(t.drop_last() =~= views.take(i as int));
            assert(t.last() == list@[i as int]@);
            if i == 0 {
                assert(t.len() == 1);
                assert(views.take(0) =~= Seq::<Seq<char>>::empty());
            }
            assert(out@ =~= old(out)@ + joined(t, sep@));
        }
        i = i + 1;
    }
    assert(views.take(list.len() as int) =~= views);
}

/// Decimal rendering of an `i64` as a new string.
pub fn i64_to_string(n: i64) -> (s: String)
    ensures
        s@ == dec_int(n as int),
{
    let mut s = String::new();
    push_dec_i64(&mut s, n);
    assert(s@ =~= dec_int(n as int));
    s
}

} // verus!
