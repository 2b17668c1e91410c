//! Decimal rendering of integers, used by the size formatter and the
//! fallback display name.
use vstd::prelude::*;

verus! {

/// The character for one decimal digit value.
pub open spec fn spec_digit_char(d: nat) -> char {
    if d == 0 {
        '0'
    } else if d == 1 {
        '1'
    } else if d == 2 {
        '2'
    } else if d == 3 {
        '3'
    } else if d == 4 {
        '4'
    } else if d == 5 {
        '5'
    } else if d == 6 {
        '6'
    } else if d == 7 {
        '7'
    } else if d == 8 {
        '8'
    } else {
        '9'
    }
}

/// The decimal digits of `n`, most significant first, with no sign and no
/// leading zero except for `n == 0` itself.
pub open spec fn spec_decimal(n: nat) -> Seq<char>
    decreases n,
{
    if n < 10 {
        seq![spec_digit_char(n)]
    } else {
        spec_decimal(n / 10).push(spec_digit_char(n % 10))
    }
}

fn digit_str(d: u64) -> (s: &'static str)
    requires
        d < 10,
    ensures
        s@ == seq![spec_digit_char(d as nat)],
{
    proof {
        reveal_strlit("0");
        reveal_strlit("1");
        reveal_strlit("2");
        reveal_strlit("3");
        reveal_strlit("4");
        reveal_strlit("5");
        reveal_strlit("6");
        reveal_strlit("7");
        reveal_strlit("8");
        reveal_strlit("9");
    }
    let s: &'static str = if d == 0 {
        "0"
    } else if d == 1 {
        "1"
    } else if d == 2 {
        "2"
    } else if d == 3 {
        "3"
    } else if d == 4 {
        "4"
    } else if d == 5 {
        "5"
    } else if d == 6 {
        "6"
    } else if d == 7 {
        "7"
    } else if d == 8 {
        "8"
    } else {
        "9"
    };
    proof {
        assert(s@ =~= seq![spec_digit_char(d as nat)]);
    }
    s
}

/// The fallback display name for a process whose name could not be
/// resolved.
pub open spec fn spec_pid_label(pid: u32) -> Seq<char> {
    seq!['P', 'I', 'D', ':', ' '] + spec_decimal(pid as nat)
}

/// Renders the fallback display name for a process.
pub fn pid_label(pid: u32) -> (s: String)
    ensures
        s@ == spec_pid_label(pid),
{
    let mut s = String::from_str("PID: ");
    let digits = decimal_string(pid as u64);
    s.append(digits.as_str());
    proof {
        reveal_strlit("PID: ");
        assert(("PID: ")@ =~= seq!['P', 'I', 'D', ':', ' ']);
        assert(s@ =~= spec_pid_label(pid));
    }
    s
}

/// Renders `n` in decimal.
pub fn decimal_string(n: u64) -> (s: String)
    ensures
        s@ == spec_decimal(n as nat),
    decreases n,
{
    if n < 10 {
        String::from_str(digit_str(n))
    } else {
        let mut s = decimal_string(n / 10);
        s.append(digit_str(n % 10));
        proof {
            assert(s@ =~= spec_decimal((n / 10) as nat).push(spec_digit_char((n % 10) as nat)));
        }
        s
    }
}

/// The hundredths of `n / unit`, rounded to the nearest, ties to the
/// even digit.
pub open spec fn spec_round_hundredths(n: nat, unit: nat) -> nat
    recommends
        unit > 0,
{
    let num = n * 100;
    let q = num / unit;
    let r = num % unit;
    if 2 * r < unit {
        q
    } else if 2 * r > unit {
        q + 1
    } else if q % 2 == 0 {
        q
    } else {
        q + 1
    }
}

/// Renders a count of hundredths as a number with exactly two decimal
/// places.
pub open spec fn spec_two_decimals(h: nat) -> Seq<char> {
    spec_decimal(h / 100) + seq!['.'] + (if h % 100 < 10 {
        seq!['0'] + spec_decimal(h % 100)
    } else {
        spec_decimal(h % 100)
    })
}

/// A byte count in human units, with binary multipliers throughout:
/// below 1024 as whole bytes, then two-decimal kibibytes, mebibytes and
/// gibibytes.
pub open spec fn spec_format_size(n: nat) -> Seq<char> {
    if n < 1024 {
        spec_decimal(n) + seq![' ', 'B']
    } else if n < 1048576 {
        spec_two_decimals(spec_round_hundredths(n, 1024)) + seq![' ', 'K', 'B']
    } else if n < 1073741824 {
        spec_two_decimals(spec_round_hundredths(n, 1048576)) + seq![' ', 'M', 'B']
    } else {
        spec_two_decimals(spec_round_hundredths(n, 1073741824)) + seq![' ', 'G', 'B']
    }
}

fn round_hundredths(size: usize, unit: u64) -> (h: u64)
    requires
        unit == 1024 || unit == 1048576 || unit == 1073741824,
    ensures
        h == spec_round_hundredths(size as nat, unit as nat),
{
    let num: u128 = (size as u128) * 100;
    let u: u128 = unit as u128;
    let q: u128 = num / u;
    let r: u128 = num % u;
    proof {
        assert(q * u + r == num) by (nonlinear_arith)
            requires
                u > 0,
                q == num / u,
                r == num % u,
        ;
        assert(num <= u64::MAX * 100);
        assert(q <= u64::MAX - 1);
    }
    let h: u128 = if 2 * r < u {
        q
    } else if 2 * r > u {
        q + 1
    } else if q % 2 == 0 {
        q
    } else {
        q + 1
    };
    h as u64
}

fn two_decimals(h: u64) -> (s: String)
    ensures
        s@ == spec_two_decimals(h as nat),
{
    let whole = h / 100;
    let frac = h % 100;
    let mut s = decimal_string(whole);
    s.append(".");
    if frac < 10 {
        s.append("0");
    }
    let frac_digits = decimal_string(frac);
    s.append(frac_digits.as_str());
    proof {
        reveal_strlit(".");
        reveal_strlit("0");
        assert((".")@ =~= seq!['.']);
        assert(("0")@ =~= seq!['0']);
        assert(s@ =~= spec_two_decimals(h as nat));
    }
    s
}

/// Renders a byte count in human units, with binary (1024-based)
/// multipliers and fixed thresholds: whole bytes below one kibibyte,
/// then two-decimal kibibytes, mebibytes and gibibytes.
pub fn format_size(size: usize) -> (s: String)
    ensures
        s@ == spec_format_size(size as nat),
{
    if size < 1024 {
        let mut s = decimal_string(size as u64);
        s.append(" B");
        proof {
            reveal_strlit(" B");
            assert((" B")@ =~= seq![' ', 'B']);
            assert(s@ =~= spec_format_size(size as nat));
        }
        s
    } else if size < 1048576 {
        let mut s = two_decimals(round_hundredths(size, 1024));
        s.append(" KB");
        proof {
            reveal_strlit(" KB");
            assert((" KB")@ =~= seq![' ', 'K', 'B']);
            assert(s@ =~= spec_format_size(size as nat));
        }
        s
    } else if size < 1073741824 {
        let mut s = two_decimals(round_hundredths(size, 1048576));
        s.append(" MB");
        proof {
            reveal_strlit(" MB");
            assert((" MB")@ =~= seq![' ', 'M', 'B']);
            assert(s@ =~= spec_format_size(size as nat));
        }
        s
    } else {
        let mut s = two_decimals(round_hundredths(size, 1073741824));
        s.append(" GB");
        proof {
            reveal_strlit(" GB");
            assert((" GB")@ =~= seq![' ', 'G', 'B']);
            assert(s@ =~= spec_format_size(size as nat));
        }
        s
    }
}

} // verus!
