//! Shared vocabulary of the timer: the three period kinds, the time-unit
//! constants, and the clock-style rendering of a duration in seconds.
use vstd::prelude::*;

verus! {

pub const SECOND_S: u64 = 1;

pub const MINUTE_S: u64 = SECOND_S * 60;

pub const HOUR_S: u64 = MINUTE_S * 60;

/// A phase of the timer, each with its own configured duration.
#[derive(Debug, Copy, Clone, PartialEq, Eq, Structural)]
pub enum Period {
    Work,
    ShortBreak,
    LongBreak,
}

/// The character for a single decimal digit.
pub open spec fn digit_char(d: int) -> char {
    if d == 0 {
        '0'
    } else if d == 1 {
        '1'
    } else if d == 2 {
        '2'
    } else if d == 3 {
        '3'
    } else if d == 4 {
        '4'
    } else if d == 5 {
        '5'
    } else if d == 6 {
        '6'
    } else if d == 7 {
        '7'
    } else if d == 8 {
        '8'
    } else {
        '9'
    }
}

/// The decimal rendering of a non-negative integer, most significant digit
/// first, with no leading zeros (a lone zero for `0`).
pub open spec fn decimal_seq(n: int) -> Seq<char>
    decreases n,
{
    if n < 10 {
        seq![digit_char(n)]
    } else {
        decimal_seq(n / 10).push(digit_char(n % 10))
    }
}

/// The decimal rendering of `n` padded with a leading zero to at least two
/// characters, as a clock field is shown.
pub open spec fn padded_decimal_seq(n: int) -> Seq<char> {
    if n < 10 {
        seq!['0'] + decimal_seq(n)
    } else {
        decimal_seq(n)
    }
}

/// The `hours:minutes:seconds` rendering of a duration given in seconds,
/// each field zero-padded to at least two characters.
pub open spec fn duration_display(seconds: int) -> Seq<char> {
    padded_decimal_seq(seconds / (HOUR_S as int)) + seq![':'] + padded_decimal_seq(
        (seconds % (HOUR_S as int)) / (MINUTE_S as int),
    ) + seq![':'] + padded_decimal_seq(seconds % (MINUTE_S as int))
}

fn digit_str(d: u64) -> (s: &'static str)
    requires
        d < 10,
    ensures
        s@ == seq![digit_char(d as int)],
{
    match d {
        0 => {
            proof {
                reveal_strlit("0");
                assert("0"@ =~= seq![digit_char(0int)]);
            }
            "0"
        },
        1 => {
            proof {
                reveal_strlit("1");
                assert("1"@ =~= seq![digit_char(1int)]);
            }
            "1"
        },
        2 => {
            proof {
                reveal_strlit("2");
                assert("2"@ =~= seq![digit_char(2int)]);
            }
            "2"
        },
        3 => {
            proof {
                reveal_strlit("3");
                assert("3"@ =~= seq![digit_char(3int)]);
            }
            "3"
        },
        4 => {
            proof {
                reveal_strlit("4");
                assert("4"@ =~= seq![digit_char(4int)]);
            }
            "4"
        },
        5 => {
            proof {
                reveal_strlit("5");
                assert("5"@ =~= seq![digit_char(5int)]);
            }
            "5"
        },
        6 => {
            proof {
                reveal_strlit("6");
                assert("6"@ =~= seq![digit_char(6int)]);
            }
            "6"
        },
        7 => {
            proof {
                reveal_strlit("7");
                assert("7"@ =~= seq![digit_char(7int)]);
            }
            "7"
        },
        8 => {
            proof {
                reveal_strlit("8");
                assert("8"@ =~= seq![digit_char(8int)]);
            }
            "8"
        },
        _ => {
            proof {
                reveal_strlit("9");
                assert("9"@ =~= seq![digit_char(9int)]);
            }
            "9"
        },
    }
}

/// Appends the decimal rendering of `n` to `out`, most significant digit
/// first.
fn push_decimal(out: &mut String, n: u64)
    ensures
        final(out)@ == old(out)@ + decimal_seq(n as int),
    decreases n,
{
    if n < 10 {
        out.append(digit_str(n));
    } else {
        proof {
            assert(n / 10 < n && n % 10 < 10) by (nonlinear_arith)
                requires
                    n >= 10,
            ;
        }
        push_decimal(out, n / 10);
        out.append(digit_str(n % 10));
        proof {
            assert(out@ =~= old(out)@ + decimal_seq(n as int));
        }
    }
}

/// Appends the decimal rendering of `n` to `out`, padded with a leading
/// zero to at least two characters.
fn push_padded_decimal(out: &mut String, n: u64)
    ensures
        final(out)@ == old(out)@ + padded_decimal_seq(n as int),
{
    if n < 10 {
        proof {
            reveal_strlit("0");
            assert("0"@ =~= seq!['0']);
        }
        out.append("0");
    }
    push_decimal(out, n);
    proof {
        assert(out@ =~= old(out)@ + padded_decimal_seq(n as int));
    }
}

/// Renders a duration given in whole seconds as `hours:minutes:seconds`,
/// each field zero-padded to at least two characters; the hours field grows
/// past two characters when the duration asks for it.
pub fn duration_to_string(seconds: u64) -> (s: String)
    ensures
        s@ == duration_display(seconds as int),
{
    let hours = seconds / HOUR_S;
    let minutes = (seconds % HOUR_S) / MINUTE_S;
    let secs = seconds % MINUTE_S;
    let mut out = String::new();
    push_padded_decimal(&mut out, hours);
    proof {
        reveal_strlit(":");
        assert(":"@ =~= seq![':']);
    }
    out.append(":");
    push_padded_decimal(&mut out, minutes);
    out.append(":");
    push_padded_decimal(&mut out, secs);
    proof {
        assert(out@ =~= duration_display(seconds as int));
    }
    out
}

} // verus!
