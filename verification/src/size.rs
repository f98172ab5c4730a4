//! Numbers as people read them: decimal text and byte counts.

use vstd::prelude::*;

verus! {

/// One kibibyte, in bytes.
pub const KIB: u64 = 1024;

/// One mebibyte, in bytes.
pub const MIB: u64 = 1048576;

/// The character of a decimal digit.
pub open spec fn digit_char(d: nat) -> char {
    ('0' as u32 + d) as char
}

/// A number in decimal, without leading zeros.
pub open spec fn decimal(n: nat) -> Seq<char>
    decreases n,
{
    if n < 10 {
        seq![digit_char(n)]
    } else {
        decimal(n / 10).push(digit_char(n % 10))
    }
}

/// The decimal text of a number.
pub fn decimal_text(n: u64) -> (r: String)
    ensures
        r@ == decimal(n as nat),
    decreases n,
{
    let mut out: String = if n < 10 {
        String::new()
    } else {
        decimal_text(n / 10)
    };
    out.push((48 + (n % 10) as u8) as char);
    out
}

/// `n / d` rounded to a whole number, a tie to the even neighbour.
pub open spec fn rounded_ratio(n: nat, d: nat) -> nat
    recommends
        d > 0,
{
    let q = n / d;
    let twice = 2 * (n % d);
    if twice < d || (twice == d && q % 2 == 0) {
        q
    } else {
        q + 1
    }
}

/// The distance between neighbouring numbers of 53 significant bits around `n`: 1 below 2^53,
/// doubling with each further bit.
pub open spec fn spacing(n: nat) -> nat
    decreases n,
{
    if n < 0x20_0000_0000_0000 {
        1
    } else {
        2 * spacing(n / 2)
    }
}

/// `n` rounded to 53 significant bits, a tie to the even neighbour.
pub open spec fn significant(n: nat) -> nat {
    rounded_ratio(n, spacing(n)) * spacing(n)
}

/// A byte count in tenths of a mebibyte: the count is rounded to 53 significant bits, then to
/// tenths.
pub open spec fn tenths_of_mib(bytes: nat) -> nat {
    rounded_ratio(10 * significant(bytes), MIB as nat)
}

/// A byte count as text: mebibytes with one decimal place, whole kibibytes (rounded down), or
/// bytes, by the largest unit that it reaches.
pub open spec fn bytes_text(bytes: nat) -> Seq<char> {
    if bytes >= MIB {
        decimal(tenths_of_mib(bytes) / 10).push('.').push(digit_char(tenths_of_mib(bytes) % 10))
            + " MiB"@
    } else if bytes >= KIB {
        decimal(bytes / KIB as nat) + " KiB"@
    } else {
        decimal(bytes) + " B"@
    }
}

/// `n / d` rounded to a whole number, a tie to the even neighbour.
fn round_ratio(n: u128, d: u128) -> (r: u128)
    requires
        0 < d <= 0x1_0000_0000_0000_0000,
        n <= 0x1_0000_0000_0000_0000_0000,
    ensures
        r == rounded_ratio(n as nat, d as nat),
{
    let q: u128 = n / d;
    assert(n / d <= n) by (nonlinear_arith)
        requires
            d > 0,
    ;
    let twice: u128 = 2 * (n % d);
    if twice < d || (twice == d && q % 2 == 0) {
        q
    } else {
        q + 1
    }
}

/// The spacing is a power of two that leaves at most 54 bits of quotient.
proof fn lemma_spacing(n: nat)
    requires
        n <= u64::MAX,
    ensures
        1 <= spacing(n) <= 0x800,
        n <= 0x20_0000_0000_0000 * spacing(n),
{
    reveal_with_fuel(spacing, 13);
}

/// Formats a byte count for a notice.
pub fn format_bytes(bytes: u64) -> (r: String)
    ensures
        r@ == bytes_text(bytes as nat),
{
    if bytes >= MIB {
        let mut step: u128 = 1;
        let mut scaled: u64 = bytes;
        proof {
            lemma_spacing(bytes as nat);
        }
        while scaled >= 0x20_0000_0000_0000
            invariant
                scaled <= bytes,
                1 <= step <= 0x800,
                spacing(bytes as nat) == step * spacing(scaled as nat),
                spacing(bytes as nat) <= 0x800,
            decreases scaled,
        {
            proof {
                let k = spacing(scaled as nat / 2);
                lemma_spacing(scaled as nat / 2);
                assert(step * (2 * k) == (step * 2) * k) by (nonlinear_arith);
                assert(step * 2 <= (step * 2) * k) by (nonlinear_arith)
                    requires
                        k >= 1,
                ;
            }
            scaled = scaled / 2;
            step = step * 2;
        }
        assert(spacing(bytes as nat) == step) by {
            assert(spacing(scaled as nat) == 1);
            assert(step * 1 == step);
        }
        let whole = round_ratio(bytes as u128, step);
        proof {
            let n = bytes as int;
            let s = step as int;
            assert(whole * s <= 2 * n + s) by (nonlinear_arith)
                requires
                    whole <= n / s + 1,
                    0 < s,
                    0 <= n,
            ;
        }
        let kept: u128 = whole * step;
        let tenths = round_ratio(10 * kept, MIB as u128);
        proof {
            assert(kept == significant(bytes as nat));
            assert(tenths == tenths_of_mib(bytes as nat));
            assert(tenths <= (10 * kept) / (MIB as int) + 1);
        }
        let mut out = decimal_text((tenths / 10) as u64);
        out.push('.');
        out.push((48 + (tenths % 10) as u8) as char);
        out.append(" MiB");
        out
    } else if bytes >= KIB {
        let mut out = decimal_text(bytes / KIB);
        out.append(" KiB");
        out
    } else {
        let mut out = decimal_text(bytes);
        out.append(" B");
        out
    }
}

// ---------------------------------------------------------------------------
// Laws
// ---------------------------------------------------------------------------

/// A decimal text is one or more digits.
pub proof fn lemma_decimal_digits(n: nat)
    ensures
        decimal(n).len() > 0,
        forall|i: int| 0 <= i < decimal(n).len() ==> '0' <= #[trigger] decimal(n)[i] <= '9',
    decreases n,
{
    if n >= 10 {
        lemma_decimal_digits(n / 10);
    }
}

/// Different numbers have different decimal texts.
pub proof fn law_decimal_texts_tell_numbers_apart(a: nat, b: nat)
    requires
        decimal(a) == decimal(b),
    ensures
        a == b,
    decreases a,
{
    lemma_decimal_digits(a);
    lemma_decimal_digits(b);
    assert(decimal(a).last() == digit_char(a % 10));
    assert(decimal(b).last() == digit_char(b % 10));
    assert(a % 10 == b % 10);
    if a < 10 {
        if b >= 10 {
            lemma_decimal_digits(b / 10);
        }
    } else {
        lemma_decimal_digits(a / 10);
        if b >= 10 {
            assert(decimal(a).drop_last() =~= decimal(a / 10));
            assert(decimal(b).drop_last() =~= decimal(b / 10));
            law_decimal_texts_tell_numbers_apart(a / 10, b / 10);
        }
    }
}

/// The number that a decimal text stands for.
pub open spec fn number_of(s: Seq<char>) -> int
    decreases s.len(),
{
    if s.len() == 0 {
        0
    } else {
        10 * number_of(s.drop_last()) + (s.last() as u32 - 48)
    }
}

/// A decimal text stands for its number, and does not begin with a zero unless the number is below
/// ten.
pub proof fn law_decimal_texts_stand_for_their_numbers(n: nat)
    ensures
        number_of(decimal(n)) == n,
        n >= 10 ==> decimal(n)[0] != '0',
        n < 10 ==> decimal(n).len() == 1,
    decreases n,
{
    lemma_decimal_digits(n);
    if n < 10 {
        assert(decimal(n).drop_last() =~= seq![]);
        assert(number_of(decimal(n).drop_last()) == 0);
    } else {
        law_decimal_texts_stand_for_their_numbers(n / 10);
        lemma_decimal_digits(n / 10);
        assert(decimal(n).drop_last() =~= decimal(n / 10));
        assert(decimal(n)[0] == decimal(n / 10)[0]);
        if n / 10 < 10 {
            assert(decimal(n / 10)[0] == digit_char(n / 10));
        }
    }
}

/// A rounded ratio is off by at most a half, and is even where it is off by a half.
pub proof fn law_rounding_is_to_the_nearest(n: nat, d: nat)
    requires
        d > 0,
    ensures
        ({
            let error = rounded_ratio(n, d) * d - n;
            &&& -(d as int) <= 2 * error <= d
            &&& (2 * error == d || 2 * error == -(d as int)) ==> rounded_ratio(n, d) % 2 == 0
        }),
{
    let q = n / d;
    let m = n % d;
    assert(n == q * d + m && 0 <= m < d) by (nonlinear_arith)
        requires
            d > 0,
            q == n / d,
            m == n % d,
    ;
    assert((q + 1) * d == q * d + d) by (nonlinear_arith);
}

/// Below 2^53 a count keeps all of its digits; above, it keeps its upper 53 bits: it is rounded to
/// a multiple of a spacing that leaves a quotient of 53 bits.
pub proof fn law_counts_keep_53_bits(n: nat)
    requires
        n <= u64::MAX,
    ensures
        n < 0x20_0000_0000_0000 ==> significant(n) == n,
        n >= 0x20_0000_0000_0000 ==> 0x10_0000_0000_0000 * spacing(n) <= n < 0x20_0000_0000_0000
            * spacing(n),
        n >= 0x20_0000_0000_0000 ==> seq![2nat, 4, 8, 16, 32, 64, 128, 256, 512, 1024, 2048].contains(
            spacing(n),
        ),
        significant(n) % spacing(n) == 0,
        -(spacing(n) as int) <= 2 * (significant(n) - n) <= spacing(n),
        (2 * (significant(n) - n) == spacing(n) || 2 * (significant(n) - n) == -(spacing(n) as int))
            ==> (significant(n) / spacing(n)) % 2 == 0,
{
    reveal_with_fuel(spacing, 13);
    let d = spacing(n);
    lemma_spacing(n);
    law_rounding_is_to_the_nearest(n, d);
    let q = rounded_ratio(n, d);
    assert((q * d) % d == 0 && (q * d) / d == q) by (nonlinear_arith)
        requires
            d > 0,
    ;
    if n < 0x20_0000_0000_0000 {
        assert(n / 1 == n && n % 1 == 0);
        assert(q == n);
        assert(q * 1 == q);
    }
}

/// Counts below a kibibyte are shown to the byte; below a mebibyte the shown kibibytes are the
/// whole ones that fit; from a mebibyte on the shown tenths are the nearest ones.
pub proof fn law_byte_texts_show_the_count(bytes: nat)
    requires
        bytes <= u64::MAX,
    ensures
        bytes < 1024 ==> exists|digits: Seq<char>|
            bytes_text(bytes) == #[trigger] (digits + " B"@) && number_of(digits) == bytes && digits
                == decimal(bytes),
        1024 <= bytes < 1048576 ==> exists|digits: Seq<char>|
            bytes_text(bytes) == #[trigger] (digits + " KiB"@) && 1024 * number_of(digits) <= bytes
                < 1024 * number_of(digits) + 1024 && digits == decimal(number_of(digits) as nat),
        bytes >= 1048576 ==> exists|whole: Seq<char>, tenth: char|
            {
                let tenths = 10 * number_of(whole) + (tenth as u32 - 48);
                let error = 1048576 * tenths - 10 * significant(bytes);
                &&& bytes_text(bytes) == #[trigger] (whole.push('.').push(tenth) + " MiB"@)
                &&& '0' <= tenth <= '9'
                &&& whole == decimal(number_of(whole) as nat)
                &&& -1048576 <= 2 * error <= 1048576
                &&& (2 * error == 1048576 || 2 * error == -1048576) ==> tenths % 2 == 0
            },
{
    if bytes < 1024 {
        law_decimal_texts_stand_for_their_numbers(bytes);
        assert(bytes_text(bytes) == decimal(bytes) + " B"@);
    } else if bytes < 1048576 {
        law_decimal_texts_stand_for_their_numbers(bytes / 1024);
        assert(bytes_text(bytes) == decimal(bytes / 1024) + " KiB"@);
    } else {
        let t = tenths_of_mib(bytes);
        law_decimal_texts_stand_for_their_numbers(t / 10);
        law_rounding_is_to_the_nearest(10 * significant(bytes), MIB as nat);
        let whole = decimal(t / 10);
        let tenth = digit_char(t % 10);
        assert(tenth as u32 == 48 + t % 10);
        assert(bytes_text(bytes) =~= whole.push('.').push(tenth) + " MiB"@);
        assert(10 * number_of(whole) + (tenth as u32 - 48) == t);
    }
}

} // verus!
