//! Parsing of the textual command arguments: non-negative integers in
//! milliseconds (for `SEEK`) and non-negative decimal numerals scaled to
//! micro-units (for `SET_VOLUME`).

use vstd::prelude::*;
use vstd::string::StrSliceExecFns;

verus! {

/// An ASCII decimal digit.
pub open spec fn is_digit(c: char) -> bool {
    48 <= c as u32 <= 57
}

/// The numeric value of an ASCII decimal digit.
pub open spec fn digit_value(c: char) -> int {
    c as u32 - 48
}

/// Every character of `s` is an ASCII decimal digit.
pub open spec fn all_digits(s: Seq<char>) -> bool {
    forall|i: int| 0 <= i < s.len() ==> is_digit(#[trigger] s[i])
}

/// The value of a digit string read in base 10, most significant digit first.
pub open spec fn digits_value(s: Seq<char>) -> int
    decreases s.len(),
{
    if s.len() == 0 {
        0
    } else {
        digits_value(s.drop_last()) * 10 + digit_value(s.last())
    }
}

/// `s` with one leading `'+'` removed, if it has one: numerals may carry
/// an optional plus sign.
pub open spec fn strip_plus(s: Seq<char>) -> Seq<char> {
    if s.len() > 0 && s[0] == '+' {
        s.drop_first()
    } else {
        s
    }
}

/// `s` is one or more ASCII digits whose value fits in `u64`.
pub open spec fn u64_digits_ok(s: Seq<char>) -> bool {
    &&& s.len() > 0
    &&& all_digits(s)
    &&& digits_value(s) <= u64::MAX
}

/// `s` is a well-formed unsigned integer numeral — an optional `'+'`, then
/// one or more ASCII digits — whose value fits in `u64`.
pub open spec fn u64_numeral_ok(s: Seq<char>) -> bool {
    u64_digits_ok(strip_plus(s))
}

/// The value of an unsigned integer numeral, its sign stripped.
pub open spec fn u64_numeral_value(s: Seq<char>) -> int {
    digits_value(strip_plus(s))
}

pub proof fn lemma_digits_value_nonneg(s: Seq<char>)
    requires
        all_digits(s),
    ensures
        digits_value(s) >= 0,
    decreases s.len(),
{
    if s.len() > 0 {
        assert forall|i: int| 0 <= i < s.drop_last().len() implies is_digit(
            #[trigger] s.drop_last()[i],
        ) by {
            assert(s.drop_last()[i] == s[i]);
        }
        lemma_digits_value_nonneg(s.drop_last());
    }
}

/// Appending digits never decreases the value of a digit string.
pub proof fn lemma_digits_value_prefix_le(s: Seq<char>, i: int)
    requires
        all_digits(s),
        0 <= i <= s.len(),
    ensures
        digits_value(s.take(i)) <= digits_value(s),
    decreases s.len() - i,
{
    if i < s.len() {
        let t = s.take(i + 1);
        assert(t.drop_last() =~= s.take(i));
        assert(t.last() == s[i]);
        assert forall|j: int| 0 <= j < s.take(i).len() implies is_digit(
            #[trigger] s.take(i)[j],
        ) by {
            assert(s.take(i)[j] == s[j]);
        }
        lemma_digits_value_nonneg(s.take(i));
        assert(digits_value(t) == digits_value(s.take(i)) * 10 + digit_value(s[i]));
        assert(digits_value(s.take(i)) <= digits_value(s.take(i)) * 10);
        lemma_digits_value_prefix_le(s, i + 1);
    } else {
        assert(s.take(i) =~= s);
    }
}

/// Largest whole part a volume numeral may carry; keeps every volume
/// representable in micro-units within a `u64`.
pub const VOLUME_WHOLE_MAX: u64 = 10_000_000_000_000;

pub open spec fn pow10(n: nat) -> int
    decreases n,
{
    if n == 0 {
        1
    } else {
        10 * pow10((n - 1) as nat)
    }
}

/// A digit string of length `n` is worth less than `10^n`.
pub proof fn lemma_digits_value_bound(s: Seq<char>)
    requires
        all_digits(s),
    ensures
        0 <= digits_value(s) < pow10(s.len()),
    decreases s.len(),
{
    if s.len() > 0 {
        assert forall|i: int| 0 <= i < s.drop_last().len() implies is_digit(
            #[trigger] s.drop_last()[i],
        ) by {
            assert(s.drop_last()[i] == s[i]);
        }
        lemma_digits_value_bound(s.drop_last());
        assert(digits_value(s.drop_last()) * 10 <= (pow10((s.len() - 1) as nat) - 1) * 10);
    }
}

/// The index of the first `'.'` in `s` at or after `i`, or `s.len()` if
/// there is none.
pub open spec fn first_dot(s: Seq<char>, i: int) -> int
    decreases s.len() - i
        when 0 <= i <= s.len()
{
    if i >= s.len() {
        i
    } else if s[i] == '.' {
        i
    } else {
        first_dot(s, i + 1)
    }
}

pub proof fn lemma_first_dot_is(s: Seq<char>, i: int, k: int)
    requires
        0 <= i <= k <= s.len(),
        forall|j: int| i <= j < k ==> s[j] != '.',
        k == s.len() || s[k] == '.',
    ensures
        first_dot(s, i) == k,
    decreases k - i,
{
    if i < k {
        lemma_first_dot_is(s, i + 1, k);
    }
}

/// The integer and fraction digit strings of a decimal numeral: the parts
/// before and after the first `'.'`, the whole string and nothing when
/// there is no `'.'`.
pub open spec fn volume_split(s: Seq<char>) -> (Seq<char>, Seq<char>) {
    let d = first_dot(s, 0);
    if d == s.len() {
        (s, Seq::<char>::empty())
    } else {
        (s.take(d), s.skip(d + 1))
    }
}

/// The fraction part padded with `'0'` on the right to exactly six digits;
/// digits beyond the sixth are dropped (truncation toward zero).
pub open spec fn pad6(s: Seq<char>) -> Seq<char> {
    if s.len() >= 6 {
        s.take(6)
    } else {
        s + Seq::<char>::new((6 - s.len()) as nat, |i: int| '0')
    }
}

/// The value of the fraction digits in micro-units.
pub open spec fn frac_micros(s: Seq<char>) -> int {
    digits_value(pad6(s))
}

/// `s` is one or more digits with at most one `'.'` anywhere among them,
/// and its whole part does not exceed [`VOLUME_WHOLE_MAX`].
pub open spec fn volume_digits_ok(s: Seq<char>) -> bool {
    let (ip, fp) = volume_split(s);
    &&& all_digits(ip)
    &&& all_digits(fp)
    &&& ip.len() + fp.len() > 0
    &&& digits_value(ip) <= VOLUME_WHOLE_MAX
}

/// `s` is a well-formed non-negative decimal numeral: an optional `'+'`,
/// then one or more digits with at most one `'.'` among them, the whole
/// part at most [`VOLUME_WHOLE_MAX`].  Signs other than `'+'` and exponent
/// notation are not part of the grammar.
pub open spec fn volume_numeral_ok(s: Seq<char>) -> bool {
    volume_digits_ok(strip_plus(s))
}

/// The value of the digit string scaled to micro-units (unity gain is
/// 1_000_000).
pub open spec fn volume_digits_value(s: Seq<char>) -> int {
    let (ip, fp) = volume_split(s);
    digits_value(ip) * (crate::MICROS_PER_UNIT as int) + frac_micros(fp)
}

/// The value of the numeral scaled to micro-units, its sign stripped.
pub open spec fn volume_micros_value(s: Seq<char>) -> int {
    volume_digits_value(strip_plus(s))
}

pub proof fn lemma_pow10_mono(a: nat, b: nat)
    requires
        a <= b,
    ensures
        pow10(a) <= pow10(b),
    decreases b,
{
    if a < b {
        lemma_pow10_mono(a, (b - 1) as nat);
        assert(pow10((b - 1) as nat) >= 1) by {
            lemma_pow10_pos((b - 1) as nat);
        }
    }
}

pub proof fn lemma_pow10_pos(n: nat)
    ensures
        pow10(n) >= 1,
    decreases n,
{
    if n > 0 {
        lemma_pow10_pos((n - 1) as nat);
    }
}

/// A string of `'0'` digits is worth zero.
pub proof fn lemma_digits_value_zeros(k: nat)
    ensures
        digits_value(Seq::<char>::new(k, |i: int| '0')) == 0,
    decreases k,
{
    if k > 0 {
        let z = Seq::<char>::new(k, |i: int| '0');
        assert(z.drop_last() =~= Seq::<char>::new((k - 1) as nat, |i: int| '0'));
        assert(z.last() == '0');
        lemma_digits_value_zeros((k - 1) as nat);
    }
}

/// Reads `s` as an unsigned decimal integer.
///
/// Returns the value exactly when `s` is an optional `'+'` followed by one
/// or more ASCII digits and the value fits in a `u64`; returns `None`
/// otherwise (no other sign, and no exponent notation).
pub fn parse_u64(s: &str) -> (r: Option<u64>)
    ensures
        r == (if u64_numeral_ok(s@) {
            Some(u64_numeral_value(s@) as u64)
        } else {
            None::<u64>
        }),
{
    let n = s.unicode_len();
    if n > 0 && s.get_char(0) == '+' {
        let t = s.substring_char(1, n);
        proof {
            assert(t@ =~= strip_plus(s@));
        }
        parse_u64_digits(t)
    } else {
        proof {
            assert(strip_plus(s@) == s@);
        }
        parse_u64_digits(s)
    }
}

/// Reads a bare digit string as an unsigned decimal integer.
fn parse_u64_digits(s: &str) -> (r: Option<u64>)
    ensures
        r == (if u64_digits_ok(s@) {
            Some(digits_value(s@) as u64)
        } else {
            None::<u64>
        }),
{
    let n = s.unicode_len();
    if n == 0 {
        return None;
    }
    let mut acc: u64 = 0;
    let mut i: usize = 0;
    while i < n
        invariant
            0 <= i <= n,
            n == s@.len(),
            all_digits(s@.take(i as int)),
            acc == digits_value(s@.take(i as int)),
        decreases n - i,
    {
        let c = s.get_char(i);
        let u = c as u32;
        if u < 48 || u > 57 {
            proof {
                assert(s@[i as int] == c);
                assert(!is_digit(c));
            }
            return None;
        }
        let d: u64 = (u - 48) as u64;
        proof {
            let t = s@.take(i as int + 1);
            assert(t.drop_last() =~= s@.take(i as int));
            assert(t.last() == c);
            assert forall|j: int| 0 <= j < t.len() implies is_digit(#[trigger] t[j]) by {
                if j < i as int {
                    assert(t[j] == s@.take(i as int)[j]);
                } else {
                    assert(t[j] == c);
                }
            }
            assert(digits_value(t) == acc * 10 + d);
        }
        if acc > 1844674407370955161 || (acc == 1844674407370955161 && d > 5) {
            proof {
                assert(acc * 10 + d > u64::MAX);
                if all_digits(s@) {
                    lemma_digits_value_prefix_le(s@, i as int + 1);
                    assert(digits_value(s@) > u64::MAX);
                }
            }
            return None;
        }
        assert(acc * 10 + d <= u64::MAX);
        acc = acc * 10 + d;
        i = i + 1;
    }
    proof {
        assert(s@.take(n as int) =~= s@);
    }
    Some(acc)
}

/// Reads `s` as a non-negative decimal numeral and scales it to
/// micro-units.
///
/// Returns the value exactly when `s` is an optional `'+'` followed by one
/// or more ASCII digits with at most one `'.'` among them and its whole
/// part is at most [`VOLUME_WHOLE_MAX`]; fraction digits beyond the sixth
/// are truncated.  Returns `None` otherwise (no other sign, and no
/// exponent notation).
pub fn parse_volume_micros(s: &str) -> (r: Option<u64>)
    ensures
        r == (if volume_numeral_ok(s@) {
            Some(volume_micros_value(s@) as u64)
        } else {
            None::<u64>
        }),
{
    let n = s.unicode_len();
    if n > 0 && s.get_char(0) == '+' {
        let t = s.substring_char(1, n);
        proof {
            assert(t@ =~= strip_plus(s@));
        }
        parse_volume_micros_digits(t)
    } else {
        proof {
            assert(strip_plus(s@) == s@);
        }
        parse_volume_micros_digits(s)
    }
}

/// Reads a bare digit-and-dot string and scales it to micro-units.
#[verifier::loop_isolation(false)]
fn parse_volume_micros_digits(s: &str) -> (r: Option<u64>)
    ensures
        r == (if volume_digits_ok(s@) {
            Some(volume_digits_value(s@) as u64)
        } else {
            None::<u64>
        }),
{
    let n = s.unicode_len();
    if n == 0 {
        return None;
    }
    let mut dot: usize = n;
    let mut found = false;
    let mut i: usize = 0;
    while i < n
        invariant
            0 <= i <= n,
            !found ==> dot == n && (forall|j: int| 0 <= j < i ==> s@[j] != '.'),
            found ==> 0 <= dot < i && s@[dot as int] == '.' && (forall|j: int|
                0 <= j < dot ==> s@[j] != '.'),
        decreases n - i,
    {
        let c = s.get_char(i);
        if !found && c == '.' {
            dot = i;
            found = true;
        }
        i = i + 1;
    }
    proof {
        lemma_first_dot_is(s@, 0, dot as int);
    }
    if dot < n && n == 1 {
        // a lone '.': no digits at all
        return None;
    }
    let ghost ip = volume_split(s@).0;
    let ghost fp = volume_split(s@).1;
    proof {
        assert(ip =~= s@.take(dot as int));
        if dot == n {
            assert(fp =~= Seq::<char>::empty());
        }
    }
    let mut acc: u64 = 0;
    let mut k: usize = 0;
    while k < dot
        invariant
            0 <= k <= dot,
            all_digits(s@.take(k as int)),
            acc == digits_value(s@.take(k as int)),
            acc <= VOLUME_WHOLE_MAX,
        decreases dot - k,
    {
        let c = s.get_char(k);
        let u = c as u32;
        if u < 48 || u > 57 {
            proof {
                assert(ip[k as int] == s@[k as int]);
                assert(!is_digit(ip[k as int]));
            }
            return None;
        }
        let d: u64 = (u - 48) as u64;
        proof {
            let t = s@.take(k as int + 1);
            assert(t.drop_last() =~= s@.take(k as int));
            assert(t.last() == c);
            assert forall|j: int| 0 <= j < t.len() implies is_digit(#[trigger] t[j]) by {
                if j < k as int {
                    assert(t[j] == s@.take(k as int)[j]);
                } else {
                    assert(t[j] == c);
                }
            }
            assert(digits_value(t) == acc * 10 + d);
        }
        let acc2 = acc * 10 + d;
        if acc2 > VOLUME_WHOLE_MAX {
            proof {
                if all_digits(ip) {
                    assert(ip.take(k as int + 1) =~= s@.take(k as int + 1));
                    lemma_digits_value_prefix_le(ip, k as int + 1);
                    assert(digits_value(ip) > VOLUME_WHOLE_MAX);
                }
            }
            return None;
        }
        acc = acc2;
        k = k + 1;
    }
    proof {
        assert(s@.take(dot as int) =~= ip);
        assert(all_digits(ip));
        assert(acc == digits_value(ip));
    }
    let fv: u64;
    if dot == n {
        fv = 0;
        proof {
            assert(pad6(fp) =~= Seq::<char>::new(6, |i: int| '0'));
            lemma_digits_value_zeros(6);
            assert(frac_micros(fp) == 0);
        }
    } else {
        proof {
            assert(fp =~= s@.skip(dot as int + 1));
        }
        let flen: usize = n - dot - 1;
        let mut j: usize = 0;
        while j < flen
            invariant
                0 <= j <= flen,
                forall|t: int| 0 <= t < j ==> is_digit(#[trigger] fp[t]),
            decreases flen - j,
        {
            let c = s.get_char(dot + 1 + j);
            let u = c as u32;
            proof {
                assert(fp[j as int] == s@[dot as int + 1 + j]);
            }
            if u < 48 || u > 57 {
                proof {
                    assert(!is_digit(fp[j as int]));
                }
                return None;
            }
            j = j + 1;
        }
        proof {
            assert(all_digits(fp));
            assert forall|t: int| 0 <= t < pad6(fp).len() implies is_digit(
                #[trigger] pad6(fp)[t],
            ) by {
                if t < fp.len() {
                    assert(pad6(fp)[t] == fp[t]);
                } else {
                    assert(pad6(fp)[t] == '0');
                }
            }
            assert(pad6(fp).len() == 6);
            lemma_pow10_value_six();
        }
        let mut fvv: u64 = 0;
        let mut p: usize = 0;
        while p < 6
            invariant
                0 <= p <= 6,
                fvv == digits_value(pad6(fp).take(p as int)),
                fvv < 1000000,
            decreases 6 - p,
        {
            let d: u64 = if p < flen {
                let c = s.get_char(dot + 1 + p);
                proof {
                    assert(fp[p as int] == s@[dot as int + 1 + p]);
                    assert(is_digit(fp[p as int]));
                }
                ((c as u32) - 48) as u64
            } else {
                0
            };
            proof {
                let q = pad6(fp);
                let t = q.take(p as int + 1);
                assert(t.drop_last() =~= q.take(p as int));
                if (p as int) < fp.len() {
                    assert(t.last() == fp[p as int]);
                } else {
                    assert(t.last() == '0');
                }
                assert(digits_value(t) == fvv * 10 + d);
                assert forall|x: int| 0 <= x < t.len() implies is_digit(#[trigger] t[x]) by {
                    assert(t[x] == q[x]);
                }
                lemma_digits_value_bound(t);
                lemma_pow10_mono((p + 1) as nat, 6);
            }
            fvv = fvv * 10 + d;
            p = p + 1;
        }
        proof {
            assert(pad6(fp).take(6) =~= pad6(fp));
        }
        fv = fvv;
    }
    assert(fv < 1000000);
    let result = acc * 1000000 + fv;
    proof {
        assert(volume_digits_ok(s@));
        lemma_digits_value_nonneg(ip);
        assert(volume_digits_value(s@) == acc * 1000000 + fv);
    }
    Some(result)
}

/// `10^6` written out, for the fraction bound.
pub proof fn lemma_pow10_value_six()
    ensures
        pow10(6) == 1000000,
{
    assert(pow10(0) == 1);
    assert(pow10(1) == 10);
    assert(pow10(2) == 100);
    assert(pow10(3) == 1000);
    assert(pow10(4) == 10000);
    assert(pow10(5) == 100000);
    assert(pow10(6) == 1000000);
}

} // verus!
