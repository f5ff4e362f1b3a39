use vstd::prelude::*;

verus! {

/// The decimal digit `d` as a character.
pub open spec fn digit(d: nat) -> char {
    seq!['0', '1', '2', '3', '4', '5', '6', '7', '8', '9'][d as int]
}

/// The decimal text of `n`, without leading zeros.
pub open spec fn decimal(n: nat) -> Seq<char>
    decreases n,
{
    if n < 10 {
        seq![digit(n)]
    } else {
        decimal(n / 10) + seq![digit(n % 10)]
    }
}

/// The decimal text of `n`, with a zero in front when it has one digit.
pub open spec fn two_digits(n: nat) -> Seq<char> {
    if n < 10 {
        seq!['0'] + decimal(n)
    } else {
        decimal(n)
    }
}

/// Two to the power `k`.
pub open spec fn two_to(k: nat) -> nat
    decreases k,
{
    if k == 0 {
        1
    } else {
        2 * two_to((k - 1) as nat)
    }
}

/// `num / den` rounded to the nearest integer, a half to the even neighbour.
pub open spec fn round_even(num: nat, den: nat) -> nat {
    let q = num / den;
    let r = num % den;
    if 2 * r < den || (2 * r == den && q % 2 == 0) {
        q
    } else {
        q + 1
    }
}

/// The least `j`, from `j` up to 64, with `n < 2^53 * 2^j`: how many low
/// bits of `n` a double (53 significant bits) cannot keep. Every 64-bit `n`
/// finds it below 12.
pub open spec fn dropped_bits(n: nat, j: nat) -> nat
    decreases 64 - j,
{
    if j >= 64 || n < 9_007_199_254_740_992 * two_to(j) {
        j
    } else {
        dropped_bits(n, j + 1)
    }
}

/// The double nearest to the integer `n`, a half to the even mantissa.
pub open spec fn int_as_double(n: nat) -> nat {
    let j = dropped_bits(n, 0);
    round_even(n, two_to(j)) * two_to(j)
}

/// The least `k`, from `k` up to 80, with `2^52 * den <= num * 2^k`: the
/// scale at which `num / den` has 53 bits before the binary point. Every
/// positive `num` of up to 65 bits finds it below 80 when `den` is `10^6`.
pub open spec fn scale_bits(num: nat, den: nat, k: nat) -> nat
    decreases 80 - k,
{
    if k >= 80 || 4_503_599_627_370_496 * den <= num * two_to(k) {
        k
    } else {
        scale_bits(num, den, k + 1)
    }
}

/// The exponent of a position in seconds as a double: the double is
/// `seconds_mantissa(micros) / 2^seconds_exponent(micros)`.
pub open spec fn seconds_exponent(micros: nat) -> nat {
    scale_bits(int_as_double(micros), 1_000_000, 0)
}

/// The mantissa of the double nearest to `micros / 10^6`, where `micros` is
/// first taken as a double.
pub open spec fn seconds_mantissa(micros: nat) -> nat {
    round_even(int_as_double(micros) * two_to(seconds_exponent(micros)), 1_000_000)
}

/// The minutes field of a position: whole minutes of the seconds double,
/// with the hours dropped.
pub open spec fn minutes_field(micros: nat) -> nat {
    (seconds_mantissa(micros) / (60 * two_to(seconds_exponent(micros)))) % 60
}

/// The seconds field of a position in hundredths of a second: the seconds
/// double less its whole minutes, rounded to the nearest hundredth from its
/// exact binary value, a half to the even hundredth.
pub open spec fn centis_field(micros: nat) -> nat {
    let p = two_to(seconds_exponent(micros));
    round_even(100 * (seconds_mantissa(micros) % (60 * p)), p)
}

/// The text of a position of `micros` microseconds: `MM:SS.ss`, the minutes
/// (hours dropped) in two digits, then the seconds within the minute in two
/// digits and two decimals. The seconds are those of the double nearest to
/// `micros / 10^6`.
pub open spec fn position_text(micros: nat) -> Seq<char> {
    let c = centis_field(micros);
    two_digits(minutes_field(micros)) + seq![':'] + two_digits(c / 100) + seq!['.']
        + seq![digit((c % 100) / 10), digit(c % 10)]
}

proof fn lemma_two_to_pos(k: nat)
    ensures
        two_to(k) >= 1,
    decreases k,
{
    if k > 0 {
        lemma_two_to_pos((k - 1) as nat);
    }
}

fn round_div_even(num: u128, den: u128) -> (r: u128)
    requires
        0 < den < 0x4000_0000_0000_0000_0000_0000_0000_0000,
        num < 0x4000_0000_0000_0000_0000_0000_0000_0000,
    ensures
        r == round_even(num as nat, den as nat),
        r <= num / den + 1,
{
    let q = num / den;
    let r = num % den;
    if 2 * r < den || (2 * r == den && q % 2 == 0) {
        q
    } else {
        q + 1
    }
}

fn int_to_double(n: u64) -> (r: u128)
    ensures
        r == int_as_double(n as nat),
        r <= 0x1_0000_0000_0000_1000,
{
    let mut j: u64 = 0;
    let mut p: u128 = 1;
    while j < 64 && (n as u128) >= 9_007_199_254_740_992 * p
        invariant
            j <= 64,
            p == two_to(j as nat),
            1 <= p <= 4096,
            dropped_bits(n as nat, j as nat) == dropped_bits(n as nat, 0),
        decreases 64 - j,
    {
        p = p * 2;
        j = j + 1;
    }
    let q = round_div_even(n as u128, p);
    assert(q * p <= n + p) by (nonlinear_arith)
        requires
            q <= (n as int) / (p as int) + 1,
            p >= 1,
    {
        assert(((n as int) / (p as int)) * p <= n);
    }
    q * p
}

fn digit_str(d: u64) -> (r: &'static str)
    requires
        d < 10,
    ensures
        r@ == seq![digit(d as nat)],
{
    proof {
        reveal_strlit("0");
        reveal_strlit("1");
        reveal_strlit("2");
        reveal_strlit("3");
        reveal_strlit("4");
        reveal_strlit("5");
        reveal_strlit("6");
        reveal_strlit("7");
        reveal_strlit("8");
        reveal_strlit("9");
    }
    match d {
        0 => "0",
        1 => "1",
        2 => "2",
        3 => "3",
        4 => "4",
        5 => "5",
        6 => "6",
        7 => "7",
        8 => "8",
        _ => "9",
    }
}

/// Appends the decimal text of `n`.
pub(crate) fn push_decimal(out: &mut String, n: u64)
    ensures
        final(out)@ == old(out)@ + decimal(n as nat),
    decreases n,
{
    if n >= 10 {
        push_decimal(out, n / 10);
        out.append(digit_str(n % 10));
        assert(final(out)@ =~= old(out)@ + decimal(n as nat));
    } else {
        out.append(digit_str(n));
        assert(final(out)@ =~= old(out)@ + decimal(n as nat));
    }
}

fn push_two_digits(out: &mut String, n: u64)
    ensures
        final(out)@ == old(out)@ + two_digits(n as nat),
{
    if n < 10 {
        out.append(digit_str(0));
    }
    push_decimal(out, n);
    assert(final(out)@ =~= old(out)@ + two_digits(n as nat));
}

/// Formats a play position given in microseconds as `MM:SS.ss`.
pub fn format_position(micros: u64) -> (r: String)
    ensures
        r@ == position_text(micros as nat),
{
    let x = int_to_double(micros);
    let mut minutes: u64 = 0;
    let mut centis: u64 = 0;
    if x == 0 {
        proof {
            let e = seconds_exponent(micros as nat);
            lemma_two_to_pos(e);
            assert(int_as_double(micros as nat) == 0);
            assert(int_as_double(micros as nat) * two_to(e) == 0);
            assert(round_even(0, 1_000_000) == 0);
            assert(seconds_mantissa(micros as nat) == 0);
            let q = 60 * two_to(e);
            assert(q > 0);
            assert(0nat % q == 0 && 0nat / q == 0) by (nonlinear_arith)
                requires
                    q > 0,
            {
            }
            assert(round_even(0, two_to(e)) == 0);
            assert(centis_field(micros as nat) == round_even(100 * (0nat % q), two_to(e)));
        }
    } else {
        let den: u128 = 1_000_000;
        let limit: u128 = 4_503_599_627_370_496 * 1_000_000;
        let mut k: u64 = 0;
        let mut p: u128 = 1;
        let mut scaled: u128 = x;
        while k < 80 && scaled < limit
            invariant
                k <= 80,
                p == two_to(k as nat),
                1 <= x <= 0x1_0000_0000_0000_1000,
                scaled == x * p,
                1 <= p <= scaled,
                scaled <= 0x4_0000_0000_0000_0000_0000,
                limit == 4_503_599_627_370_496 * 1_000_000,
                scale_bits(x as nat, 1_000_000, k as nat) == scale_bits(x as nat, 1_000_000, 0),
            decreases 80 - k,
        {
            assert(scaled * 2 == x * (p * 2)) by (nonlinear_arith)
                requires
                    scaled == x * p,
            {
            }
            scaled = scaled * 2;
            p = p * 2;
            k = k + 1;
        }
        assert(scale_bits(x as nat, 1_000_000, k as nat) == k);
        assert(seconds_exponent(micros as nat) == k);
        let m = round_div_even(scaled, den);
        assert(m == seconds_mantissa(micros as nat));
        let whole = 60 * p;
        let sec = m % whole;
        assert(100 * sec < 6000 * p) by (nonlinear_arith)
            requires
                sec < whole,
                whole == 60 * p,
        {
        }
        let c = round_div_even(100 * sec, p);
        assert(c <= 6000) by (nonlinear_arith)
            requires
                c <= (100 * sec) / (p as int) + 1,
                100 * sec < 6000 * p,
                p >= 1,
        {
            assert((100 * sec) / (p as int) < 6000);
        }
        minutes = ((m / whole) % 60) as u64;
        centis = c as u64;
        assert(centis == centis_field(micros as nat));
    }
    assert(minutes == minutes_field(micros as nat));
    assert(centis == centis_field(micros as nat));
    let mut out = String::new();
    push_two_digits(&mut out, minutes);
    out.append(":");
    push_two_digits(&mut out, centis / 100);
    out.append(".");
    out.append(digit_str((centis % 100) / 10));
    out.append(digit_str(centis % 10));
    proof {
        reveal_strlit(":");
        reveal_strlit(".");
    }
    assert(out@ =~= position_text(micros as nat));
    out
}

} // verus!
