//! Parsing of the duration arguments of `entries create` and `entries edit`:
//! either a plain (signed) number of seconds, or a sequence of `<digits><unit>`
//! groups with the units `h`, `m` and `s` (in either case), such as `1h30m`.

use vstd::prelude::*;

use crate::error::{AppError, AppErrorView};
use crate::text::{
    all_digits, dec_nat, digit_char, digit_of, digits_value, is_ascii_digit, is_whitespace, push_char, push_chars, trim,
    trimmed_chars,
};

verus! {

broadcast use vstd::string::group_string_axioms;

/// `i64::MAX`.
pub open spec fn i64_max() -> int {
    0x7fff_ffff_ffff_ffff
}

/// `<i64 as FromStr>::from_str`: an optional `+` or `-`, then one or more
/// ASCII digits whose value fits in an `i64`.
pub open spec fn parse_i64(t: Seq<char>) -> Option<int> {
    let signed = t.len() > 0 && (t[0] == '+' || t[0] == '-');
    let neg = t.len() > 0 && t[0] == '-';
    let body = if signed {
        t.drop_first()
    } else {
        t
    };
    if body.len() > 0 && all_digits(body) {
        let v = digits_value(body);
        if neg {
            if v <= i64_max() + 1 {
                Some(-v)
            } else {
                None
            }
        } else {
            if v <= i64_max() {
                Some(v as int)
            } else {
                None
            }
        }
    } else {
        None
    }
}

/// Why a duration text is refused.
#[derive(Debug)]
pub enum DurationFault {
    /// A unit without a number before it, or a number that does not fit in an `i64`.
    Invalid,
    /// The total, or one group, exceeds `i64::MAX` seconds.
    Overflow,
    /// A character that is neither a digit nor a unit.
    BadUnit(char),
    /// Digits at the end with no unit after them.
    Trailing,
    /// The groups add up to zero.
    NotPositive,
}

/// Seconds in one unit: `h` and `H` an hour, `m` and `M` a minute, `s` and `S` a second.
pub open spec fn unit_seconds(c: char) -> Option<int> {
    if c == 'h' || c == 'H' {
        Some(3600)
    } else if c == 'm' || c == 'M' {
        Some(60)
    } else if c == 's' || c == 'S' {
        Some(1)
    } else {
        None
    }
}

/// One step of the scan: the running total and the pending digits, then `c`.
pub open spec fn duration_step(total: int, buf: Seq<char>, c: char) -> Result<
    (int, Seq<char>),
    DurationFault,
> {
    if is_ascii_digit(c) {
        Ok((total, buf.push(c)))
    } else if buf.len() == 0 || digits_value(buf) > i64_max() {
        Err(DurationFault::Invalid)
    } else {
        match unit_seconds(c) {
            Some(u) => {
                let n = digits_value(buf);
                if n * u > i64_max() || total + n * u > i64_max() {
                    Err(DurationFault::Overflow)
                } else {
                    Ok((total + n * u, Seq::empty()))
                }
            },
            None => Err(DurationFault::BadUnit(c)),
        }
    }
}

/// The scan of `cs` from the left, starting from a zero total and no pending digits.
pub open spec fn duration_scan(cs: Seq<char>) -> Result<(int, Seq<char>), DurationFault>
    decreases cs.len(),
{
    if cs.len() == 0 {
        Ok((0, Seq::empty()))
    } else {
        match duration_scan(cs.drop_last()) {
            Ok((total, buf)) => duration_step(total, buf, cs.last()),
            Err(f) => Err(f),
        }
    }
}

/// The duration in seconds that the (already trimmed) text `t` denotes.
pub open spec fn duration_value(t: Seq<char>) -> Result<int, DurationFault> {
    match parse_i64(t) {
        Some(v) => Ok(v),
        None => match duration_scan(t) {
            Err(f) => Err(f),
            Ok((total, buf)) => if buf.len() > 0 {
                Err(DurationFault::Trailing)
            } else if total == 0 {
                Err(DurationFault::NotPositive)
            } else {
                Ok(total)
            },
        },
    }
}

/// The message of the `InvalidInput` error for a refused duration text `t`.
pub open spec fn duration_fault_message(f: DurationFault, t: Seq<char>) -> Seq<char> {
    match f {
        DurationFault::Invalid => "Invalid duration: '"@ + t + "'"@,
        DurationFault::Overflow => "Duration overflow: '"@ + t + "'"@,
        DurationFault::BadUnit(c) => "Invalid duration unit '"@ + seq![c] + "' in '"@ + t
            + "' (expected h, m, or s)"@,
        DurationFault::Trailing => "Invalid duration: '"@ + t
            + "' (trailing number without unit, use e.g. '90m' or '1h30m')"@,
        DurationFault::NotPositive => "Duration must be positive: '"@ + t + "'"@,
    }
}

// ---------------------------------------------------------------------------
// Lemmas
// ---------------------------------------------------------------------------

/// A successful scan keeps the total within `0..=i64::MAX` and only digits pending.
pub proof fn lemma_scan_bounds(cs: Seq<char>)
    ensures
        duration_scan(cs) matches Ok((total, buf)) ==> 0 <= total <= i64_max() && all_digits(
            buf,
        ),
    decreases cs.len(),
{
    if cs.len() > 0 {
        lemma_scan_bounds(cs.drop_last());
        if let Ok((total, buf)) = duration_scan(cs.drop_last()) {
            if is_ascii_digit(cs.last()) {
                let b2 = buf.push(cs.last());
                assert forall|i: int| 0 <= i < b2.len() implies #[trigger] is_ascii_digit(
                    b2[i],
                ) by {
                    if i < buf.len() {
                        assert(b2[i] == buf[i]);
                    }
                }
            } else if buf.len() > 0 && digits_value(buf) <= i64_max() {
                if let Some(u) = unit_seconds(cs.last()) {
                    let n = digits_value(buf);
                    assert(n * u >= 0) by (nonlinear_arith)
                        requires
                            n >= 0,
                            u >= 0,
                    ;
                }
            }
        }
    }
}

/// Once the scan of a prefix has failed, the scan of the whole fails the same way.
pub proof fn lemma_scan_err_sticks(cs: Seq<char>, k: int)
    requires
        0 <= k <= cs.len(),
        duration_scan(cs.take(k)) is Err,
    ensures
        duration_scan(cs) == duration_scan(cs.take(k)),
    decreases cs.len() - k,
{
    if k == cs.len() {
        assert(cs.take(k) =~= cs);
    } else {
        let p = cs.take(k + 1);
        assert(p.drop_last() =~= cs.take(k));
        assert(p.take(k) =~= cs.take(k));
        assert(duration_scan(p) == duration_scan(cs.take(k)));
        lemma_scan_err_sticks(cs, k + 1);
        assert(cs.take(k + 1) =~= p);
    }
}

// ---------------------------------------------------------------------------
// Executable code
// ---------------------------------------------------------------------------

/// `<i64 as FromStr>::from_str` on a sequence of characters.
pub fn parse_i64_chars(t: &Vec<char>) -> (r: Option<i64>)
    ensures
        match parse_i64(t@) {
            Some(v) => r == Some(v as i64),
            None => r is None,
        },
{
    let n = t.len();
    let signed = n > 0 && (t[0] == '+' || t[0] == '-');
    let neg = n > 0 && t[0] == '-';
    let start: usize = if signed {
        1
    } else {
        0
    };
    let ghost body = if signed {
        t@.drop_first()
    } else {
        t@
    };
    assert(body =~= t@.subrange(start as int, n as int));
    if start == n {
        return None;
    }
    let lim: i128 = 0x8000_0000_0000_0000;
    let mut acc: i128 = 0;
    let mut big = false;
    let mut j = start;
    while j < n
        invariant
            start <= j <= n == t.len(),
            body == t@.subrange(start as int, n as int),
            body == (if signed {
                t@.drop_first()
            } else {
                t@
            }),
            signed == (t@.len() > 0 && (t@[0] == '+' || t@[0] == '-')),
            neg == (t@.len() > 0 && t@[0] == '-'),
            all_digits(t@.subrange(start as int, j as int)),
            big == (digits_value(t@.subrange(start as int, j as int)) > lim),
            !big ==> acc == digits_value(t@.subrange(start as int, j as int)),
            lim == 0x8000_0000_0000_0000,
            0 <= acc <= lim,
        decreases n - j,
    {
        let c = t[j];
        let ghost pre = t@.subrange(start as int, j as int);
        let ghost post = t@.subrange(start as int, (j + 1) as int);
        assert(post =~= pre.push(c));
        assert(post.drop_last() =~= pre);
        if !('0' <= c && c <= '9') {
            proof {
                assert(body[j - start] == t@[j as int]);
                assert(!is_ascii_digit(body[j - start]));
            }
            return None;
        }
        let d = (c as u32) - ('0' as u32);
        if !big {
            let next = acc * 10 + (d as i128);
            if next > lim {
                big = true;
            } else {
                acc = next;
            }
        }
        proof {
            assert forall|i: int| 0 <= i < post.len() implies #[trigger] is_ascii_digit(post[i]) by {
                if i < pre.len() {
                    assert(post[i] == pre[i]);
                }
            }
        }
        j = j + 1;
    }
    assert(t@.subrange(start as int, n as int) == body);
    if neg {
        if big {
            None
        } else {
            let v: i128 = -acc;
            Some(v as i64)
        }
    } else {
        if big || acc > 0x7fff_ffff_ffff_ffff {
            None
        } else {
            Some(acc as i64)
        }
    }
}

/// The `InvalidInput` error for a refused duration text.
pub fn duration_fault_error(f: &DurationFault, t: &Vec<char>) -> (e: AppError)
    ensures
        e@ == AppErrorView::InvalidInput(duration_fault_message(*f, t@)),
{
    let mut m = String::new();
    match f {
        DurationFault::Invalid => {
            m.append("Invalid duration: '");
            push_chars(&mut m, t, 0, t.len());
            m.append("'");
        },
        DurationFault::Overflow => {
            m.append("Duration overflow: '");
            push_chars(&mut m, t, 0, t.len());
            m.append("'");
        },
        DurationFault::BadUnit(c) => {
            m.append("Invalid duration unit '");
            push_char(&mut m, *c);
            m.append("' in '");
            push_chars(&mut m, t, 0, t.len());
            m.append("' (expected h, m, or s)");
        },
        DurationFault::Trailing => {
            m.append("Invalid duration: '");
            push_chars(&mut m, t, 0, t.len());
            m.append("' (trailing number without unit, use e.g. '90m' or '1h30m')");
        },
        DurationFault::NotPositive => {
            m.append("Duration must be positive: '");
            push_chars(&mut m, t, 0, t.len());
            m.append("'");
        },
    }
    assert(t@.subrange(0, t@.len() as int) =~= t@);
    assert(m@ =~= duration_fault_message(*f, t@));
    AppError::InvalidInput(m)
}

/// Parses a duration argument into seconds.
///
/// The text is trimmed first. A plain integer (optionally signed) is taken as a
/// number of seconds as it stands. Otherwise the text must be a sequence of
/// groups `<digits><unit>`, with `h`, `m` or `s` (either case) as unit, adding
/// up to a positive number of seconds that fits in an `i64`; every refusal is an
/// `InvalidInput` error whose message quotes the trimmed text.
pub fn parse_duration_str(s: &str) -> (r: Result<i64, AppError>)
    ensures
        match duration_value(trim(s@)) {
            Ok(v) => r matches Ok(x) && x == v,
            Err(f) => r matches Err(e) && e@ == AppErrorView::InvalidInput(
                duration_fault_message(f, trim(s@)),
            ),
        },
{
    let t = trimmed_chars(s);
    if let Some(secs) = parse_i64_chars(&t) {
        return Ok(secs);
    }
    let n = t.len();
    let mut total: i64 = 0;
    let mut buf_len: usize = 0;
    let mut buf_val: i64 = 0;
    let mut buf_big = false;
    let ghost mut buf: Seq<char> = Seq::empty();
    let mut i: usize = 0;
    assert(t@.take(0) =~= Seq::<char>::empty());
    while i < n
        invariant
            i <= n == t.len(),
            t@ == trim(s@),
            parse_i64(t@) is None,
            duration_scan(t@.take(i as int)) == Ok::<(int, Seq<char>), DurationFault>(
                (total as int, buf),
            ),
            0 <= total,
            buf.len() == buf_len,
            buf_len <= i,
            all_digits(buf),
            buf_big == (digits_value(buf) > i64_max()),
            !buf_big ==> buf_val == digits_value(buf),
            0 <= buf_val <= i64_max(),
        decreases n - i,
    {
        let c = t[i];
        let ghost pre = t@.take(i as int);
        let ghost post = t@.take((i + 1) as int);
        assert(post.drop_last() =~= pre);
        assert(post.last() == c);
        assert(duration_scan(post) == duration_step(total as int, buf, c));
        if '0' <= c && c <= '9' {
            let d = (c as u32) - ('0' as u32);
            if !buf_big {
                let next: i128 = (buf_val as i128) * 10 + (d as i128);
                if next > 0x7fff_ffff_ffff_ffff {
                    buf_big = true;
                } else {
                    buf_val = next as i64;
                }
            }
            proof {
                let b2 = buf.push(c);
                assert(b2.drop_last() =~= buf);
                assert forall|k: int| 0 <= k < b2.len() implies #[trigger] is_ascii_digit(b2[k]) by {
                    if k < buf.len() {
                        assert(b2[k] == buf[k]);
                    }
                }
                buf = b2;
            }
            buf_len = buf_len + 1;
        } else {
            if buf_len == 0 || buf_big {
                proof {
                    lemma_scan_err_sticks(t@, (i + 1) as int);
                    assert(t@.take(n as int) =~= t@);
                }
                return Err(duration_fault_error(&DurationFault::Invalid, &t));
            }
            let unit: i64 = if c == 'h' || c == 'H' {
                3600
            } else if c == 'm' || c == 'M' {
                60
            } else if c == 's' || c == 'S' {
                1
            } else {
                proof {
                    lemma_scan_err_sticks(t@, (i + 1) as int);
                    assert(t@.take(n as int) =~= t@);
                }
                return Err(duration_fault_error(&DurationFault::BadUnit(c), &t));
            };
            assert(0 <= (buf_val as i128) * (unit as i128) <= 3600 * 0x7fff_ffff_ffff_ffff)
                by (nonlinear_arith)
                requires
                    0 <= buf_val <= 0x7fff_ffff_ffff_ffff,
                    1 <= unit <= 3600,
            ;
            let prod: i128 = (buf_val as i128) * (unit as i128);
            let sum: i128 = (total as i128) + prod;
            if prod > 0x7fff_ffff_ffff_ffff || sum > 0x7fff_ffff_ffff_ffff {
                proof {
                    lemma_scan_err_sticks(t@, (i + 1) as int);
                    assert(t@.take(n as int) =~= t@);
                }
                return Err(duration_fault_error(&DurationFault::Overflow, &t));
            }
            total = sum as i64;
            buf_len = 0;
            buf_val = 0;
            buf_big = false;
            proof {
                buf = Seq::empty();
            }
        }
        i = i + 1;
    }
    assert(t@.take(n as int) =~= t@);
    if buf_len > 0 {
        return Err(duration_fault_error(&DurationFault::Trailing, &t));
    }
    if total == 0 {
        return Err(duration_fault_error(&DurationFault::NotPositive, &t));
    }
    Ok(total)
}

/// The decimal rendering of a number is made of digits and reads back as it.
proof fn lemma_dec_nat_reads_back(n: nat)
    ensures
        dec_nat(n).len() > 0,
        all_digits(dec_nat(n)),
        digits_value(dec_nat(n)) == n,
    decreases n,
{
    let r = n % 10;
    assert(digit_of(digit_char(r)) == r && is_ascii_digit(digit_char(r))) by {
        assert((r + ('0' as int)) as u8 == r + 48);
    }
    if n < 10 {
        let d = dec_nat(n);
        assert(d.drop_last() =~= Seq::<char>::empty());
        assert(digits_value(d.drop_last()) == 0);
        assert(d.last() == digit_char(r));
        assert(digits_value(d) == digits_value(d.drop_last()) * 10 + digit_of(d.last()));
        assert(n == (n / 10) * 10 + r);
        assert(digits_value(d) == digits_value(d.drop_last()) * 10 + digit_of(d.last()));
    } else {
        lemma_dec_nat_reads_back(n / 10);
        let d = dec_nat(n);
        assert(d.drop_last() =~= dec_nat(n / 10));
        assert(d.last() == digit_char(r));
        assert forall|i: int| 0 <= i < d.len() implies #[trigger] is_ascii_digit(d[i]) by {
            if i < d.len() - 1 {
                assert(d[i] == dec_nat(n / 10)[i]);
            }
        }
    }
}

/// A text without whitespace at either end is its own trim.
proof fn lemma_trim_of_unpadded(t: Seq<char>)
    requires
        t.len() > 0,
        !is_whitespace(t[0]),
        !is_whitespace(t.last()),
    ensures
        trim(t) == t,
{
}

/// A positive number of seconds written in decimal, as an id or a count is
/// printed, is read back by the duration parser as that many seconds.
pub proof fn law_decimal_seconds_read_back(n: nat)
    requires
        0 < n <= i64_max(),
    ensures
        duration_value(trim(dec_nat(n))) == Ok::<int, DurationFault>(n as int),
{
    lemma_dec_nat_reads_back(n);
    let t = dec_nat(n);
    assert(is_ascii_digit(t[0]) && is_ascii_digit(t.last()));
    lemma_trim_of_unpadded(t);
    assert(t[0] != '+' && t[0] != '-');
}

/// The scan of `cs` from the left, starting from the given total and pending digits.
pub open spec fn scan_from(total: int, buf: Seq<char>, cs: Seq<char>) -> Result<
    (int, Seq<char>),
    DurationFault,
>
    decreases cs.len(),
{
    if cs.len() == 0 {
        Ok((total, buf))
    } else {
        match scan_from(total, buf, cs.drop_last()) {
            Ok((t, b)) => duration_step(t, b, cs.last()),
            Err(f) => Err(f),
        }
    }
}

/// The scan of a text is the scan from nothing.
proof fn lemma_scan_is_scan_from(cs: Seq<char>)
    ensures
        duration_scan(cs) == scan_from(0, Seq::empty(), cs),
    decreases cs.len(),
{
    if cs.len() > 0 {
        lemma_scan_is_scan_from(cs.drop_last());
    }
}

/// Scanning `a + c` is scanning `a`, then going on with `c`.
proof fn lemma_scan_from_split(total: int, buf: Seq<char>, a: Seq<char>, c: Seq<char>)
    ensures
        scan_from(total, buf, a + c) == match scan_from(total, buf, a) {
            Ok((t, b)) => scan_from(t, b, c),
            Err(f) => Err(f),
        },
    decreases c.len(),
{
    if c.len() == 0 {
        assert(a + c =~= a);
    } else {
        lemma_scan_from_split(total, buf, a, c.drop_last());
        assert((a + c).drop_last() =~= a + c.drop_last());
        assert((a + c).last() == c.last());
    }
}

/// A scan that succeeds from a zero total succeeds from any total that leaves
/// room for what it adds, ending that much higher.
proof fn lemma_scan_from_shift(x: int, buf: Seq<char>, c: Seq<char>)
    requires
        x >= 0,
        scan_from(0, buf, c) is Ok,
        x + scan_from(0, buf, c)->Ok_0.0 <= i64_max(),
    ensures
        scan_from(x, buf, c) == Ok::<(int, Seq<char>), DurationFault>(
            (x + scan_from(0, buf, c)->Ok_0.0, scan_from(0, buf, c)->Ok_0.1),
        ),
        scan_from(0, buf, c)->Ok_0.0 >= 0,
    decreases c.len(),
{
    if c.len() > 0 {
        let p = c.drop_last();
        let ch = c.last();
        assert(scan_from(0, buf, p) is Ok);
        let (y1, b1) = scan_from(0, buf, p)->Ok_0;
        if !is_ascii_digit(ch) && b1.len() > 0 && digits_value(b1) <= i64_max() {
            if let Some(u) = unit_seconds(ch) {
                let n = digits_value(b1);
                assert(n * u >= 0) by (nonlinear_arith)
                    requires
                        n >= 0,
                        u >= 0,
                ;
            }
        }
        lemma_scan_from_shift(x, buf, p);
    }
}

/// Digits alone are only pending: their scan adds nothing yet.
proof fn lemma_scan_digits_from(x: int, d: Seq<char>)
    requires
        all_digits(d),
    ensures
        scan_from(x, Seq::empty(), d) == Ok::<(int, Seq<char>), DurationFault>((x, d)),
    decreases d.len(),
{
    if d.len() > 0 {
        assert(all_digits(d.drop_last())) by {
            assert forall|i: int| 0 <= i < d.drop_last().len() implies #[trigger] is_ascii_digit(
                d.drop_last()[i],
            ) by {
                assert(d.drop_last()[i] == d[i]);
            }
        }
        lemma_scan_digits_from(x, d.drop_last());
        assert(is_ascii_digit(d[d.len() - 1]));
        assert(d.drop_last().push(d.last()) =~= d);
    } else {
        assert(d =~= Seq::<char>::empty());
    }
}

/// Digits alone, scanned from nothing.
proof fn lemma_scan_digits(d: Seq<char>)
    requires
        all_digits(d),
    ensures
        scan_from(0, Seq::empty(), d) == Ok::<(int, Seq<char>), DurationFault>((0, d)),
{
    lemma_scan_digits_from(0, d);
}

/// One group `<digits><unit>` scans to the digits' value times the unit's
/// seconds, as long as that fits in an `i64`.
proof fn lemma_one_group_digits(d: Seq<char>, unit: char)
    requires
        d.len() > 0,
        all_digits(d),
        unit_seconds(unit) is Some,
        digits_value(d) * unit_seconds(unit)->Some_0 <= i64_max(),
    ensures
        duration_scan(d.push(unit)) == Ok::<(int, Seq<char>), DurationFault>(
            (digits_value(d) * unit_seconds(unit)->Some_0, Seq::empty()),
        ),
{
    let u = unit_seconds(unit)->Some_0;
    let n = digits_value(d);
    assert(n <= i64_max()) by (nonlinear_arith)
        requires
            u >= 1,
            n * u <= i64_max(),
            n >= 0,
    ;
    lemma_scan_digits(d);
    lemma_scan_is_scan_from(d.push(unit));
    assert(d.push(unit).drop_last() =~= d);
    assert(!is_ascii_digit(unit));
}

/// One group `<n><unit>`, the number written in decimal, reads as `n` times
/// the seconds of the unit, as long as that fits in an `i64`.
pub proof fn law_one_group(n: nat, unit: char)
    requires
        unit_seconds(unit) is Some,
        n * unit_seconds(unit)->Some_0 <= i64_max(),
    ensures
        duration_scan(dec_nat(n).push(unit)) == Ok::<(int, Seq<char>), DurationFault>(
            (n * unit_seconds(unit)->Some_0, Seq::empty()),
        ),
{
    lemma_dec_nat_reads_back(n);
    lemma_one_group_digits(dec_nat(n), unit);
}

/// The groups of a duration add up: when `a` and `c` each scan to a total
/// with nothing pending, `a + c` scans to the sum, as long as it fits.
pub proof fn law_groups_add_up(a: Seq<char>, c: Seq<char>)
    requires
        duration_scan(a) matches Ok((x, b)) && b.len() == 0,
        duration_scan(c) matches Ok((y, b)) && b.len() == 0,
        duration_scan(a)->Ok_0.0 + duration_scan(c)->Ok_0.0 <= i64_max(),
    ensures
        duration_scan(a + c) == Ok::<(int, Seq<char>), DurationFault>(
            (duration_scan(a)->Ok_0.0 + duration_scan(c)->Ok_0.0, Seq::empty()),
        ),
{
    lemma_scan_is_scan_from(a);
    lemma_scan_is_scan_from(c);
    lemma_scan_is_scan_from(a + c);
    lemma_scan_bounds(a);
    let x = duration_scan(a)->Ok_0.0;
    assert(duration_scan(a)->Ok_0.1 =~= Seq::<char>::empty());
    assert(duration_scan(c)->Ok_0.1 =~= Seq::<char>::empty());
    lemma_scan_from_split(0, Seq::empty(), a, c);
    lemma_scan_from_shift(x, Seq::empty(), c);
}

/// The text of a list of groups, each `<digits><unit>`.
pub open spec fn groups_text(gs: Seq<(Seq<char>, char)>) -> Seq<char>
    decreases gs.len(),
{
    if gs.len() == 0 {
        Seq::empty()
    } else {
        groups_text(gs.drop_last()) + gs.last().0.push(gs.last().1)
    }
}

/// The seconds that a list of groups adds up to.
pub open spec fn groups_sum(gs: Seq<(Seq<char>, char)>) -> int
    decreases gs.len(),
{
    if gs.len() == 0 {
        0
    } else {
        groups_sum(gs.drop_last()) + digits_value(gs.last().0) * unit_seconds(gs.last().1)->Some_0
    }
}

/// Every group is one or more ASCII digits followed by `h`, `m` or `s` (in
/// either case).
pub open spec fn well_formed_groups(gs: Seq<(Seq<char>, char)>) -> bool {
    forall|i: int|
        0 <= i < gs.len() ==> #[trigger] gs[i].0.len() > 0 && all_digits(gs[i].0)
            && unit_seconds(gs[i].1) is Some
}

/// The sum of groups never goes down as groups are added.
proof fn lemma_groups_sum_grows(gs: Seq<(Seq<char>, char)>)
    requires
        well_formed_groups(gs),
    ensures
        0 <= groups_sum(gs),
        gs.len() > 0 ==> groups_sum(gs.drop_last()) <= groups_sum(gs),
    decreases gs.len(),
{
    if gs.len() > 0 {
        let p = gs.drop_last();
        assert(well_formed_groups(p)) by {
            assert forall|i: int| 0 <= i < p.len() implies #[trigger] p[i].0.len() > 0 && all_digits(
                p[i].0,
            ) && unit_seconds(p[i].1) is Some by {
                assert(p[i] == gs[i]);
            }
        }
        lemma_groups_sum_grows(p);
        assert(gs[gs.len() - 1] == gs.last());
        let n = digits_value(gs.last().0);
        let u = unit_seconds(gs.last().1)->Some_0;
        assert(n * u >= 0) by (nonlinear_arith)
            requires
                n >= 0,
                u >= 0,
        ;
    }
}

/// A duration written as groups `<digits><unit>` (such as `1h30m` or
/// `90m15s`) reads as the sum of each group's digits times its unit's
/// seconds, when that sum fits in an `i64`: that sum when it is positive,
/// else the not-positive error.
pub proof fn law_duration_is_sum_of_groups(gs: Seq<(Seq<char>, char)>)
    requires
        gs.len() > 0,
        well_formed_groups(gs),
        groups_sum(gs) <= i64_max(),
    ensures
        duration_scan(groups_text(gs)) == Ok::<(int, Seq<char>), DurationFault>(
            (groups_sum(gs), Seq::empty()),
        ),
        duration_value(groups_text(gs)) == if groups_sum(gs) > 0 {
            Ok::<int, DurationFault>(groups_sum(gs))
        } else {
            Err::<int, DurationFault>(DurationFault::NotPositive)
        },
    decreases gs.len(),
{
    let p = gs.drop_last();
    let g = gs.last();
    assert(gs[gs.len() - 1] == g);
    let group = g.0.push(g.1);
    assert(well_formed_groups(p)) by {
        assert forall|i: int| 0 <= i < p.len() implies #[trigger] p[i].0.len() > 0 && all_digits(
            p[i].0,
        ) && unit_seconds(p[i].1) is Some by {
            assert(p[i] == gs[i]);
        }
    }
    lemma_groups_sum_grows(gs);
    lemma_groups_sum_grows(p);
    let n = digits_value(g.0);
    let u = unit_seconds(g.1)->Some_0;
    assert(n * u >= 0) by (nonlinear_arith)
        requires
            n >= 0,
            u >= 0,
    ;
    assert(n * u <= i64_max());
    lemma_one_group_digits(g.0, g.1);
    if p.len() == 0 {
        assert(groups_text(p) == Seq::<char>::empty());
        assert(groups_text(gs) =~= group);
    } else {
        law_duration_is_sum_of_groups(p);
        law_groups_add_up(groups_text(p), group);
    }
    let t = groups_text(gs);
    assert(t.len() > 0 && t.last() == g.1);
    assert(!is_ascii_digit(g.1));
    assert(parse_i64(t) is None) by {
        let signed = t[0] == '+' || t[0] == '-';
        let body = if signed {
            t.drop_first()
        } else {
            t
        };
        if body.len() > 0 {
            assert(body[body.len() - 1] == t.last());
            assert(!is_ascii_digit(body[body.len() - 1]));
        }
    }
}

/// Groups whose sum does not fit in an `i64` are refused.
pub proof fn law_groups_overflow_refused(gs: Seq<(Seq<char>, char)>)
    requires
        well_formed_groups(gs),
        groups_sum(gs) > i64_max(),
    ensures
        duration_scan(groups_text(gs)) is Err,
        duration_value(groups_text(gs)) is Err,
    decreases gs.len(),
{
    let p = gs.drop_last();
    let g = gs.last();
    assert(gs[gs.len() - 1] == g);
    let group = g.0.push(g.1);
    assert(well_formed_groups(p)) by {
        assert forall|i: int| 0 <= i < p.len() implies #[trigger] p[i].0.len() > 0 && all_digits(
            p[i].0,
        ) && unit_seconds(p[i].1) is Some by {
            assert(p[i] == gs[i]);
        }
    }
    lemma_scan_is_scan_from(groups_text(gs));
    lemma_scan_is_scan_from(groups_text(p));
    lemma_scan_from_split(0, Seq::empty(), groups_text(p), group);
    if groups_sum(p) > i64_max() {
        law_groups_overflow_refused(p);
    } else {
        lemma_groups_sum_grows(p);
        if p.len() > 0 {
            law_duration_is_sum_of_groups(p);
        }
        let x = groups_sum(p);
        assert(scan_from(0, Seq::empty(), groups_text(p)) == Ok::<(int, Seq<char>), DurationFault>(
            (x, Seq::empty()),
        ));
        lemma_scan_digits_from(x, g.0);
        lemma_scan_from_split(x, Seq::empty(), g.0, seq![g.1]);
        assert(g.0 + seq![g.1] =~= group);
        assert(seq![g.1].drop_last() =~= Seq::<char>::empty());
        assert(!is_ascii_digit(g.1));
        let one = seq![g.1];
        assert(one.last() == g.1);
        assert(scan_from(x, g.0, one.drop_last()) == Ok::<(int, Seq<char>), DurationFault>(
            (x, g.0),
        ));
        assert(scan_from(x, g.0, one) == duration_step(x, g.0, g.1));
        assert(groups_sum(gs) == x + digits_value(g.0) * unit_seconds(g.1)->Some_0);
        assert(duration_step(x, g.0, g.1) is Err);
        assert(scan_from(x, Seq::empty(), group) is Err);
    }
    assert(groups_text(gs) == groups_text(p) + group);
    assert(scan_from(0, Seq::empty(), groups_text(gs)) is Err);
    let t = groups_text(gs);
    assert(t.len() > 0 && t.last() == g.1);
    assert(!is_ascii_digit(g.1));
    assert(parse_i64(t) is None) by {
        let signed = t[0] == '+' || t[0] == '-';
        let body = if signed {
            t.drop_first()
        } else {
            t
        };
        if body.len() > 0 {
            assert(body[body.len() - 1] == t.last());
            assert(!is_ascii_digit(body[body.len() - 1]));
        }
    }
}

} // verus!
