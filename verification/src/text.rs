//! Decimal rendering: whole numbers, and fixed-point values held in
//! hundredths rendered with exactly two decimal places.
use vstd::prelude::*;
use vstd::string::StringExecFns;

verus! {

/// The decimal digit character for `d` (0 through 9).
pub open spec fn digit_char(d: nat) -> char {
    if d == 0 {
        '0'
    } else if d == 1 {
        '1'
    } else if d == 2 {
        '2'
    } else if d == 3 {
        '3'
    } else if d == 4 {
        '4'
    } else if d == 5 {
        '5'
    } else if d == 6 {
        '6'
    } else if d == 7 {
        '7'
    } else if d == 8 {
        '8'
    } else {
        '9'
    }
}

/// The decimal rendering of `n`, most significant digit first, no sign
/// and no leading zeros (except for zero itself).
pub open spec fn dec_str(n: nat) -> Seq<char>
    decreases n,
{
    if n < 10 {
        seq![digit_char(n)]
    } else {
        dec_str(n / 10).push(digit_char(n % 10))
    }
}

/// The rendering of `h` hundredths as a decimal number with exactly two
/// places: the whole part, a point, then two digits.
pub open spec fn dec2_str(h: nat) -> Seq<char> {
    dec_str(h / 100) + seq!['.', digit_char((h / 10) % 10), digit_char(h % 10)]
}

/// A single decimal digit as a string slice.
fn digit_str(d: u64) -> (s: &'static str)
    requires
        d < 10,
    ensures
        s@ == seq![digit_char(d as nat)],
{
    let s: &'static str = match d {
        0 => "0",
        1 => "1",
        2 => "2",
        3 => "3",
        4 => "4",
        5 => "5",
        6 => "6",
        7 => "7",
        8 => "8",
        _ => "9",
    };
    proof {
        reveal_strlit("0");
        reveal_strlit("1");
        reveal_strlit("2");
        reveal_strlit("3");
        reveal_strlit("4");
        reveal_strlit("5");
        reveal_strlit("6");
        reveal_strlit("7");
        reveal_strlit("8");
        reveal_strlit("9");
        assert(s@ =~= seq![digit_char(d as nat)]);
    }
    s
}

/// Renders `n` in decimal.
pub fn u64_to_dec(n: u64) -> (s: String)
    ensures
        s@ == dec_str(n as nat),
    decreases n,
{
    if n < 10 {
        String::from_str(digit_str(n))
    } else {
        let mut s = u64_to_dec(n / 10);
        s.append(digit_str(n % 10));
        proof {
            assert(s@ =~= dec_str(n as nat));
        }
        s
    }
}

/// Renders `h` hundredths with exactly two decimal places.
pub fn hundredths_to_dec2(h: u64) -> (s: String)
    ensures
        s@ == dec2_str(h as nat),
{
    let mut s = u64_to_dec(h / 100);
    s.append(".");
    s.append(digit_str((h / 10) % 10));
    s.append(digit_str(h % 10));
    proof {
        reveal_strlit(".");
        assert(s@ =~= dec2_str(h as nat));
    }
    s
}

/// The period in hundredths of a minute, rounded half-up from the exact
/// value `p / 60` minutes.
pub open spec fn mins_hundredths(p: nat) -> nat {
    (p * 100 + 30) / 60
}

/// The period in hundredths of a day, rounded half-up from the exact
/// value `p / 86400` days (equal to the period in minutes divided by
/// 60 * 24).
pub open spec fn days_hundredths(p: nat) -> nat {
    (p * 100 + 43200) / 86400
}

/// LAW: the displayed minutes and days are both correctly rounded from
/// the same ceiling-rounded seconds value `p`: the minutes value is
/// `p / 60` to within half a hundredth, and the days value is
/// `p / 86400 == (p / 60) / 1440` to within half a hundredth.
pub proof fn lemma_period_unit_rounding(p: nat)
    ensures
        60 * mins_hundredths(p) <= 100 * p + 30 < 60 * (mins_hundredths(p) + 1),
        86400 * days_hundredths(p) <= 100 * p + 43200 < 86400 * (days_hundredths(p) + 1),
{
    vstd::arithmetic::div_mod::lemma_fundamental_div_mod((100 * p + 30) as int, 60);
    vstd::arithmetic::div_mod::lemma_fundamental_div_mod((100 * p + 43200) as int, 86400);
}

} // verus!
