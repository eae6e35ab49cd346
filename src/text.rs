use vstd::prelude::*;

verus! {

pub open spec fn digit_char(d: int) -> char {
    seq!['0', '1', '2', '3', '4', '5', '6', '7', '8', '9'][d]
}

/// The decimal digits of `n`, most significant first, without leading zeros.
pub open spec fn decimal(n: nat) -> Seq<char>
    decreases n,
{
    if n < 10 {
        seq![digit_char(n as int)]
    } else {
        decimal(n / 10).push(digit_char((n % 10) as int))
    }
}

/// The last `k` decimal digits of `n`, padded with zeros.
pub open spec fn padded_digits(n: nat, k: nat) -> Seq<char>
    decreases k,
{
    if k == 0 {
        Seq::empty()
    } else {
        padded_digits(n / 10, (k - 1) as nat).push(digit_char((n % 10) as int))
    }
}

pub open spec fn pow10(k: nat) -> nat
    decreases k,
{
    if k == 0 {
        1
    } else {
        10 * pow10((k - 1) as nat)
    }
}

/// `v / 10^places` written with exactly `places` digits after the point.
pub open spec fn fixed_text(v: int, places: nat) -> Seq<char> {
    let n: nat = if v < 0 { (-v) as nat } else { v as nat };
    let body = if places == 0 {
        decimal(n)
    } else {
        decimal(n / pow10(places)) + seq!['.'] + padded_digits(n, places)
    };
    if v < 0 { seq!['-'] + body } else { body }
}

fn digit_str(d: u64) -> (r: &'static str)
    requires
        d < 10,
    ensures
        r@ == seq![digit_char(d as int)],
{
    proof {
        reveal_strlit("0");
        reveal_strlit("1");
        reveal_strlit("2");
        reveal_strlit("3");
        reveal_strlit("4");
        reveal_strlit("5");
        reveal_strlit("6");
        reveal_strlit("7");
        reveal_strlit("8");
        reveal_strlit("9");
    }
    match d {
        0 => "0",
        1 => "1",
        2 => "2",
        3 => "3",
        4 => "4",
        5 => "5",
        6 => "6",
        7 => "7",
        8 => "8",
        _ => "9",
    }
}

/// Appends the decimal digits of `n`.
pub fn push_decimal(s: &mut String, n: u64)
    ensures
        final(s)@ == old(s)@ + decimal(n as nat),
    decreases n,
{
    if n >= 10 {
        push_decimal(s, n / 10);
    }
    s.append(digit_str(n % 10));
    assert(final(s)@ =~= old(s)@ + decimal(n as nat));
}

/// Appends the last `k` digits of `n`, padded with zeros.
fn push_padded(s: &mut String, n: u64, k: u32)
    ensures
        final(s)@ == old(s)@ + padded_digits(n as nat, k as nat),
    decreases k,
{
    if k > 0 {
        push_padded(s, n / 10, k - 1);
        s.append(digit_str(n % 10));
        assert(final(s)@ =~= old(s)@ + padded_digits(n as nat, k as nat));
    } else {
        assert(final(s)@ =~= old(s)@ + padded_digits(n as nat, k as nat));
    }
}

/// Appends `v / 10^places` with exactly `places` digits after the point.
pub fn push_fixed(s: &mut String, v: i64, places: u32)
    requires
        places <= 18,
    ensures
        final(s)@ == old(s)@ + fixed_text(v as int, places as nat),
{
    let n: u64 = if v < 0 {
        ((-(v as i128)) as u64)
    } else {
        v as u64
    };
    if v < 0 {
        s.append("-");
    }
    let ghost mid = s@;
    if places == 0 {
        push_decimal(s, n);
    } else {
        let mut scale: u64 = 1;
        let mut i: u32 = 0;
        while i < places
            invariant
                i <= places <= 18,
                scale == pow10(i as nat),
                1 <= scale <= 1_000_000_000_000_000_000u64,
            decreases places - i,
        {
            proof {
                lemma_pow10_fits((i + 1) as nat);
            }
            scale = scale * 10;
            i = i + 1;
        }
        push_decimal(s, n / scale);
        s.append(".");
        push_padded(s, n, places);
    }
    proof {
        reveal_strlit("-");
        reveal_strlit(".");
        assert(final(s)@ =~= old(s)@ + fixed_text(v as int, places as nat));
    }
}

proof fn lemma_pow10_monotone(a: nat, b: nat)
    requires
        a <= b,
    ensures
        pow10(a) <= pow10(b),
    decreases b - a,
{
    if a < b {
        lemma_pow10_monotone(a, (b - 1) as nat);
    }
}

proof fn lemma_pow10_fits(i: nat)
    requires
        i <= 18,
    ensures
        pow10(i) <= 1_000_000_000_000_000_000,
{
    lemma_pow10_monotone(i, 18);
    reveal_with_fuel(pow10, 19);
}

} // verus!
