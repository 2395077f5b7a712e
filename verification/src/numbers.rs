//! Numbers as text: whole numbers in decimal, fractions held as counts of a
//! fixed unit, and ratios of two whole numbers.
use crate::text::{find_char, first_index, first_index_bounds, first_index_is};
use vstd::prelude::*;

verus! {

/// The character that writes the digit `d`.
pub open spec fn digit_char(d: nat) -> char
    recommends
        d < 10,
{
    if d == 0 {
        '0'
    } else if d == 1 {
        '1'
    } else if d == 2 {
        '2'
    } else if d == 3 {
        '3'
    } else if d == 4 {
        '4'
    } else if d == 5 {
        '5'
    } else if d == 6 {
        '6'
    } else if d == 7 {
        '7'
    } else if d == 8 {
        '8'
    } else {
        '9'
    }
}

/// Whether `c` is one of the ten ASCII digits.
pub open spec fn is_digit(c: char) -> bool {
    '0' <= c && c <= '9'
}

/// The value of the digit `c`.
pub open spec fn digit_value(c: char) -> nat
    recommends
        is_digit(c),
{
    (c as int - '0' as int) as nat
}

/// Whether every character of `s` is a digit.
pub open spec fn all_digits(s: Seq<char>) -> bool {
    forall|i: int| 0 <= i < s.len() ==> is_digit(#[trigger] s[i])
}

/// The shortest decimal writing of `n`.
pub open spec fn decimal(n: nat) -> Seq<char>
    decreases n,
{
    if n < 10 {
        seq![digit_char(n)]
    } else {
        decimal(n / 10).push(digit_char(n % 10))
    }
}

/// The number that the digit string `s` writes, leading zeros allowed.
pub open spec fn number(s: Seq<char>) -> nat
    decreases s.len(),
{
    if s.len() == 0 {
        0
    } else {
        number(s.drop_last()) * 10 + digit_value(s.last())
    }
}

/// A digit reads back as itself.
pub proof fn digit_round_trip(d: nat)
    requires
        d < 10,
    ensures
        is_digit(digit_char(d)),
        digit_value(digit_char(d)) == d,
{
}

/// Writing a number and reading the digits back gives the number again.
pub proof fn decimal_round_trip(n: nat)
    ensures
        decimal(n).len() > 0,
        all_digits(decimal(n)),
        number(decimal(n)) == n,
    decreases n,
{
    if n < 10 {
        digit_round_trip(n);
        let s = decimal(n);
        assert(s.drop_last() =~= Seq::<char>::empty());
        assert(number(s.drop_last()) == 0);
    } else {
        decimal_round_trip(n / 10);
        digit_round_trip(n % 10);
        let s = decimal(n);
        assert(s.drop_last() =~= decimal(n / 10));
    }
}

/// A longer digit string with the same leading digits writes at least as much.
pub proof fn number_prefix_bound(s: Seq<char>, k: int)
    requires
        0 <= k <= s.len(),
    ensures
        number(s.take(k)) <= number(s),
    decreases s.len() - k,
{
    if k < s.len() {
        number_prefix_bound(s, k + 1);
        assert(s.take(k + 1).drop_last() =~= s.take(k));
    } else {
        assert(s.take(k) =~= s);
    }
}

/// One more digit at the end multiplies by ten and adds the digit.
pub proof fn number_push(s: Seq<char>, c: char)
    ensures
        number(s.push(c)) == number(s) * 10 + digit_value(c),
{
    assert(s.push(c).drop_last() =~= s);
}

fn digit_text(d: u64) -> (t: &'static str)
    requires
        d < 10,
    ensures
        t@ == seq![digit_char(d as nat)],
{
    proof {
        reveal_strlit("0");
        reveal_strlit("1");
        reveal_strlit("2");
        reveal_strlit("3");
        reveal_strlit("4");
        reveal_strlit("5");
        reveal_strlit("6");
        reveal_strlit("7");
        reveal_strlit("8");
        reveal_strlit("9");
    }
    let t = if d == 0 {
        "0"
    } else if d == 1 {
        "1"
    } else if d == 2 {
        "2"
    } else if d == 3 {
        "3"
    } else if d == 4 {
        "4"
    } else if d == 5 {
        "5"
    } else if d == 6 {
        "6"
    } else if d == 7 {
        "7"
    } else if d == 8 {
        "8"
    } else {
        "9"
    };
    assert(t@ =~= seq![digit_char(d as nat)]);
    t
}

/// Appends the shortest decimal writing of `n` to `out`.
pub fn append_decimal(out: &mut String, n: u64)
    ensures
        final(out)@ == old(out)@ + decimal(n as nat),
    decreases n,
{
    if n >= 10 {
        append_decimal(out, n / 10);
    }
    out.append(digit_text(n % 10));
    proof {
        if n >= 10 {
            assert(old(out)@ + decimal((n / 10) as nat) + seq![digit_char((n % 10) as nat)]
                =~= old(out)@ + decimal(n as nat));
        }
    }
}

/// Reads a run of digits as a number.
///
/// Succeeds exactly on a non-empty digit string whose value fits in 64 bits.
pub fn parse_number(s: &[char]) -> (r: Option<u64>)
    ensures
        r is Some <==> s@.len() > 0 && all_digits(s@) && number(s@) <= u64::MAX,
        r is Some ==> r->0 == number(s@),
{
    if s.len() == 0 {
        return None;
    }
    let mut acc: u64 = 0;
    let mut i: usize = 0;
    while i < s.len()
        invariant
            0 <= i <= s.len(),
            all_digits(s@.take(i as int)),
            acc == number(s@.take(i as int)),
        decreases s.len() - i,
    {
        let c = s[i];
        proof {
            assert(s@.take(i + 1).drop_last() =~= s@.take(i as int));
            assert(s@.take(i + 1).last() == c);
            number_prefix_bound(s@, i + 1);
        }
        if c < '0' || c > '9' {
            return None;
        }
        let d: u64 = (c as u32 - '0' as u32) as u64;
        if acc > (u64::MAX - d) / 10 {
            return None;
        }
        acc = acc * 10 + d;
        i = i + 1;
        proof {
            assert forall|j: int| 0 <= j < i implies is_digit(#[trigger] s@.take(i as int)[j]) by {
                if j < i - 1 {
                    assert(s@.take(i - 1)[j] == s@[j]);
                }
            }
        }
    }
    proof {
        assert(s@.take(i as int) =~= s@);
    }
    Some(acc)
}

/// The first `scale` characters of `frac`, with zeros where it is shorter.
pub open spec fn padded(frac: Seq<char>, scale: nat) -> Seq<char> {
    Seq::new(
        scale,
        |k: int|
            if k < frac.len() {
                frac[k]
            } else {
                '0'
            },
    )
}

/// The digits after the first point of `s`, empty where it has no point.
pub open spec fn after_point(s: Seq<char>) -> Seq<char> {
    let dot = first_index(s, '.');
    if dot < s.len() {
        s.skip(dot + 1)
    } else {
        Seq::empty()
    }
}

/// Whether `s` writes a non-negative decimal fraction: digits, then
/// optionally a point and more digits, at least one on each side.
pub open spec fn is_fixed(s: Seq<char>) -> bool {
    let dot = first_index(s, '.');
    &&& dot > 0
    &&& all_digits(s.take(dot))
    &&& dot < s.len() ==> after_point(s).len() > 0 && all_digits(after_point(s))
}

/// The value of the decimal fraction `s` in units of ten to the minus
/// `scale`, digits beyond that place cut off.
pub open spec fn fixed_value(s: Seq<char>, scale: nat) -> nat
    recommends
        is_fixed(s),
{
    number(s.take(first_index(s, '.')) + padded(after_point(s), scale))
}

/// Reads a decimal fraction in units of ten to the minus `scale`.
///
/// Succeeds exactly on a well-formed fraction whose scaled value fits in 64
/// bits.
pub fn parse_fixed(s: &[char], scale: usize) -> (r: Option<u64>)
    ensures
        r is Some <==> is_fixed(s@) && fixed_value(s@, scale as nat) <= u64::MAX,
        r is Some ==> r->0 == fixed_value(s@, scale as nat),
{
    let dot = find_char(s, '.');
    proof {
        first_index_bounds(s@, '.');
    }
    if dot == 0 {
        return None;
    }
    let whole = vstd::slice::slice_subrange(s, 0, dot);
    assert(whole@ =~= s@.take(dot as int));
    let frac = if dot < s.len() {
        vstd::slice::slice_subrange(s, dot + 1, s.len())
    } else {
        vstd::slice::slice_subrange(s, 0, 0)
    };
    assert(frac@ =~= after_point(s@));
    if dot < s.len() && frac.len() == 0 {
        return None;
    }
    let ghost full = whole@ + padded(frac@, scale as nat);
    let mut acc: u64 = match parse_number(whole) {
        Some(n) => n,
        None => {
            proof {
                if all_digits(whole@) {
                    assert(full.take(whole@.len() as int) =~= whole@);
                    number_prefix_bound(full, whole@.len() as int);
                }
            }
            return None;
        },
    };
    let mut k: usize = 0;
    while k < frac.len()
        invariant
            0 <= k <= frac.len(),
            all_digits(frac@.take(k as int)),
            frac@ == after_point(s@),
            dot == first_index(s@, '.'),
            frac@.len() > 0 ==> dot < s@.len(),
        decreases frac.len() - k,
    {
        let c = frac[k];
        if c < '0' || c > '9' {
            assert(!is_digit(frac@[k as int]));
            return None;
        }
        k = k + 1;
        proof {
            assert forall|j: int| 0 <= j < k implies is_digit(#[trigger] frac@.take(k as int)[j]) by {
                if j < k - 1 {
                    assert(frac@.take(k - 1)[j] == frac@[j]);
                }
            }
        }
    }
    assert(frac@.take(k as int) =~= frac@);
    let mut p: usize = 0;
    assert(full.take(whole@.len() as int) =~= whole@);
    while p < scale
        invariant
            0 <= p <= scale,
            full == whole@ + padded(frac@, scale as nat),
            all_digits(frac@),
            whole@ == s@.take(dot as int),
            frac@ == after_point(s@),
            dot == first_index(s@, '.'),
            acc == number(full.take(whole@.len() + p)),
        decreases scale - p,
    {
        let d: u64 = if p < frac.len() {
            (frac[p] as u32 - '0' as u32) as u64
        } else {
            0
        };
        proof {
            let n = whole@.len() + p;
            assert(full.take(n + 1).drop_last() =~= full.take(n));
            assert(full.take(n + 1).last() == padded(frac@, scale as nat)[p as int]);
            assert(p < frac@.len() ==> is_digit(frac@[p as int]));
            assert(digit_value(full.take(n + 1).last()) == d);
            number_prefix_bound(full, n + 1);
        }
        if acc > (u64::MAX - d) / 10 {
            return None;
        }
        acc = acc * 10 + d;
        p = p + 1;
    }
    assert(full.take(whole@.len() + scale) =~= full);
    Some(acc)
}

/// The four decimal digits of `f`, leading zeros kept.
pub open spec fn digits4(f: nat) -> Seq<char>
    recommends
        f < 10000,
{
    seq![
        digit_char(f / 1000),
        digit_char(f / 100 % 10),
        digit_char(f / 10 % 10),
        digit_char(f % 10),
    ]
}

/// The digits of `f` after the point, of four places, without trailing zeros.
pub open spec fn fraction4(f: nat) -> Seq<char>
    recommends
        0 < f < 10000,
{
    if f % 10 != 0 {
        digits4(f)
    } else if f % 100 != 0 {
        digits4(f).take(3)
    } else if f % 1000 != 0 {
        digits4(f).take(2)
    } else {
        digits4(f).take(1)
    }
}

/// The decimal writing of `v` ten-thousandths: the whole part, and a point
/// and the fraction only where the fraction is not zero.
pub open spec fn fixed4(v: nat) -> Seq<char> {
    if v % 10000 == 0 {
        decimal(v / 10000)
    } else {
        decimal(v / 10000) + seq!['.'] + fraction4(v % 10000)
    }
}

/// Four more digits at the end multiply by ten thousand and add the number
/// that the four digits write.
pub proof fn number_digits4(a: Seq<char>, f: nat)
    requires
        f < 10000,
    ensures
        number(a + digits4(f)) == number(a) * 10000 + f,
        all_digits(digits4(f)),
{
    let n1 = f / 1000;
    let n2 = f / 100 % 10;
    let n3 = f / 10 % 10;
    let n4 = f % 10;
    assert(n1 < 10 && n2 < 10 && n3 < 10 && n4 < 10 && f == n1 * 1000 + n2 * 100 + n3 * 10 + n4)
        by (nonlinear_arith)
        requires
            f < 10000,
            n1 == f / 1000,
            n2 == f / 100 % 10,
            n3 == f / 10 % 10,
            n4 == f % 10,
    ;
    digit_round_trip(n1);
    digit_round_trip(n2);
    digit_round_trip(n3);
    digit_round_trip(n4);
    let s1 = a.push(digit_char(n1));
    let s2 = s1.push(digit_char(n2));
    let s3 = s2.push(digit_char(n3));
    let s4 = s3.push(digit_char(n4));
    number_push(a, digit_char(n1));
    number_push(s1, digit_char(n2));
    number_push(s2, digit_char(n3));
    number_push(s3, digit_char(n4));
    assert(number(s1) == number(a) * 10 + n1);
    assert(number(s2) == number(a) * 100 + n1 * 10 + n2);
    assert(number(s3) == number(a) * 1000 + n1 * 100 + n2 * 10 + n3);
    assert(number(s4) == number(a) * 10000 + f);
    assert(s4 =~= a + digits4(f));
    assert forall|j: int| 0 <= j < 4 implies is_digit(#[trigger] digits4(f)[j]) by {}
}

/// Filling the fraction of `f` up to four places gives its four digits.
pub proof fn fraction4_padded(f: nat)
    requires
        0 < f < 10000,
    ensures
        padded(fraction4(f), 4) == digits4(f),
        fraction4(f).len() > 0,
        all_digits(fraction4(f)),
{
    number_digits4(Seq::empty(), f);
    let d = digits4(f);
    let fr = fraction4(f);
    assert(f % 10 == 0 ==> d[3] == '0');
    assert(f % 100 == 0 ==> d[2] == '0');
    assert(f % 1000 == 0 ==> d[1] == '0');
    assert forall|j: int| 0 <= j < fr.len() implies is_digit(#[trigger] fr[j]) by {
        assert(fr[j] == d[j]);
        assert(is_digit(d[j]));
    }
    assert(padded(fr, 4) =~= d);
}

/// Writing ten-thousandths as a decimal fraction and reading it back at four
/// places gives the value again.
pub proof fn fixed4_round_trip(v: nat)
    ensures
        is_fixed(fixed4(v)),
        fixed_value(fixed4(v), 4) == v,
        fixed4(v).len() > 0,
        is_digit(fixed4(v)[0]),
{
    let w = v / 10000;
    let f = v % 10000;
    let a = decimal(w);
    let s = fixed4(v);
    decimal_round_trip(w);
    assert(is_digit(a[0]));
    number_digits4(a, f);
    assert forall|j: int| 0 <= j < a.len() implies a[j] != '.' by {
        assert(is_digit(a[j]));
    }
    if f == 0 {
        first_index_is(s, '.', s.len() as int);
        assert(s.take(s.len() as int) =~= a);
        assert(after_point(s) =~= Seq::<char>::empty());
        assert(padded(Seq::<char>::empty(), 4) =~= digits4(0));
    } else {
        let fr = fraction4(f);
        fraction4_padded(f);
        assert(s[a.len() as int] == '.');
        assert forall|j: int| 0 <= j < a.len() implies s[j] != '.' by {
            assert(s[j] == a[j]);
        }
        first_index_is(s, '.', a.len() as int);
        assert(s.take(a.len() as int) =~= a);
        assert(s.skip(a.len() as int + 1) =~= fr);
    }
}

/// Appends the decimal writing of `v` ten-thousandths to `out`.
pub fn append_fixed4(out: &mut String, v: u64)
    ensures
        final(out)@ == old(out)@ + fixed4(v as nat),
{
    let f: u64 = v % 10000;
    append_decimal(out, v / 10000);
    if f != 0 {
        out.append(".");
        out.append(digit_text(f / 1000));
        if f % 1000 != 0 {
            out.append(digit_text(f / 100 % 10));
        }
        if f % 100 != 0 {
            out.append(digit_text(f / 10 % 10));
        }
        if f % 10 != 0 {
            out.append(digit_text(f % 10));
        }
        proof {
            reveal_strlit(".");
            assert(out@ =~= old(out)@ + fixed4(v as nat));
        }
    }
}

/// Whether `s` writes a ratio of two whole numbers: digits, a slash, digits,
/// the second number not zero.
pub open spec fn is_ratio(s: Seq<char>) -> bool {
    let slash = first_index(s, '/');
    &&& 0 < slash < s.len() - 1
    &&& all_digits(s.take(slash))
    &&& all_digits(s.skip(slash + 1))
    &&& number(s.skip(slash + 1)) > 0
}

/// The number before the slash of a ratio.
pub open spec fn ratio_numerator(s: Seq<char>) -> nat {
    number(s.take(first_index(s, '/')))
}

/// The number after the slash of a ratio.
pub open spec fn ratio_denominator(s: Seq<char>) -> nat {
    number(s.skip(first_index(s, '/') + 1))
}

/// The ratio `s` in ten-thousandths, rounded down.
pub open spec fn ratio_ten_thousandths(s: Seq<char>) -> nat
    recommends
        is_ratio(s),
{
    ratio_numerator(s) * 10000 / ratio_denominator(s)
}

/// Reads a ratio `n/d` in ten-thousandths, rounded down.
///
/// Succeeds exactly on a well-formed ratio whose two numbers fit in 64 bits
/// and whose scaled value does too.
pub fn parse_ratio(s: &[char]) -> (r: Option<u64>)
    ensures
        r is Some <==> is_ratio(s@) && ratio_numerator(s@) <= u64::MAX && ratio_denominator(s@)
            <= u64::MAX && ratio_ten_thousandths(s@) <= u64::MAX,
        r is Some ==> r->0 == ratio_ten_thousandths(s@),
{
    let slash = find_char(s, '/');
    if slash == 0 || slash >= s.len() {
        return None;
    }
    let top = vstd::slice::slice_subrange(s, 0, slash);
    let bottom = vstd::slice::slice_subrange(s, slash + 1, s.len());
    assert(top@ =~= s@.take(slash as int));
    assert(bottom@ =~= s@.skip(slash + 1));
    let n: u64 = match parse_number(top) {
        Some(n) => n,
        None => {
            return None;
        },
    };
    let d: u64 = match parse_number(bottom) {
        Some(d) => d,
        None => {
            return None;
        },
    };
    if d == 0 {
        return None;
    }
    let scaled: u128 = (n as u128 * 10000) / (d as u128);
    if scaled > u64::MAX as u128 {
        return None;
    }
    Some(scaled as u64)
}

} // verus!
