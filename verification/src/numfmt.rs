//! Exact two-decimal formatting of fixed-point centi-unit values.
//!
//! A value of `v` hundredths prints as its integer part, a point, and two
//! decimal digits, e.g. `2250 -> "22.50"`; an optional left space pad
//! gives the fixed five-character cells of the configuration screen.

use vstd::prelude::*;
use crate::buffer::OutBuf;
use crate::buffer::BUF_CAP;
use crate::buffer::buf_text;
use crate::buffer::buf_used;
use crate::buffer::buf_push_str;

verus! {

/// The character for one decimal digit.
pub open spec fn digit_char(d: int) -> char {
    if d == 0 {
        '0'
    } else if d == 1 {
        '1'
    } else if d == 2 {
        '2'
    } else if d == 3 {
        '3'
    } else if d == 4 {
        '4'
    } else if d == 5 {
        '5'
    } else if d == 6 {
        '6'
    } else if d == 7 {
        '7'
    } else if d == 8 {
        '8'
    } else {
        '9'
    }
}

/// Decimal digits of a natural number, most significant first.
pub open spec fn dec_rep(n: nat) -> Seq<char>
    decreases n,
{
    if n < 10 {
        seq![digit_char(n as int)]
    } else {
        dec_rep(n / 10) + seq![digit_char((n % 10) as int)]
    }
}

/// A nonnegative count of hundredths with two decimal places:
/// integer part, point, two digits.
pub open spec fn fmt_centi_nonneg(n: int) -> Seq<char> {
    dec_rep((n / 100) as nat) + seq!['.', digit_char((n % 100) / 10), digit_char(n % 10)]
}

/// A count of hundredths with two decimal places and a leading minus
/// sign when negative, e.g. `2250 -> "22.50"`, `-5 -> "-0.05"`.
pub open spec fn fmt_centi(v: int) -> Seq<char> {
    if v < 0 {
        seq!['-'] + fmt_centi_nonneg(-v)
    } else {
        fmt_centi_nonneg(v)
    }
}

/// `fmt_centi`, left-padded with spaces to at least five characters:
/// the fixed-width cell format of the configuration screen.
pub open spec fn fmt_centi_pad5(v: int) -> Seq<char> {
    if fmt_centi(v).len() < 5 {
        seq![' '] + fmt_centi(v)
    } else {
        fmt_centi(v)
    }
}

/// Powers of ten, for digit-count bounds.
pub open spec fn pow10(k: nat) -> nat
    decreases k,
{
    if k == 0 {
        1
    } else {
        10 * pow10((k - 1) as nat)
    }
}

/// A number below `pow10(k)` has at most `k` decimal digits.
proof fn lemma_dec_rep_len(n: nat, k: nat)
    requires
        1 <= k,
        n < pow10(k),
    ensures
        dec_rep(n).len() <= k,
    decreases k,
{
    if n < 10 {
    } else {
        assert(pow10(0) == 1);
        assert(pow10(1) == 10);
        if k == 1 {
            assert(false);
        } else {
            assert(pow10(k) == 10 * pow10((k - 1) as nat));
            assert(n / 10 < pow10((k - 1) as nat)) by {
                assert(n < 10 * pow10((k - 1) as nat));
                assert(n / 10 < pow10((k - 1) as nat)) by (nonlinear_arith)
                    requires
                        n < 10 * pow10((k - 1) as nat),
                ;
            };
            lemma_dec_rep_len(n / 10, (k - 1) as nat);
        }
    }
}

/// Every number has at least one digit.
proof fn lemma_dec_rep_len_pos(n: nat)
    ensures
        dec_rep(n).len() >= 1,
    decreases n,
{
    if n >= 10 {
        lemma_dec_rep_len_pos(n / 10);
    }
}

/// Digit-count bound for the integer parts that fit a 32-bit magnitude.
proof fn lemma_dec_rep_len_u32(n: nat)
    requires
        n < 0x1_0000_0000,
    ensures
        1 <= dec_rep(n).len() <= 10,
{
    assert(pow10(0) == 1);
    assert(pow10(1) == 10);
    assert(pow10(2) == 100);
    assert(pow10(3) == 1000);
    assert(pow10(4) == 10000);
    assert(pow10(5) == 100000);
    assert(pow10(6) == 1000000);
    assert(pow10(7) == 10000000);
    assert(pow10(8) == 100000000);
    assert(pow10(9) == 1000000000);
    assert(pow10(10) == 10000000000);
    lemma_dec_rep_len(n, 10);
    lemma_dec_rep_len_pos(n);
}

/// Length bounds of the two-decimal format over the 32-bit signed range:
/// at least "0.00", at most a sign, ten digits, a point and two digits.
pub proof fn lemma_fmt_centi_len(v: int)
    requires
        -0x8000_0000 <= v < 0x8000_0000,
    ensures
        4 <= fmt_centi(v).len() <= 14,
        fmt_centi(v).len() < 5 <==> 0 <= v <= 999,
{
    assert(pow10(0) == 1);
    assert(pow10(1) == 10);
    if v < 0 {
        lemma_dec_rep_len_u32(((-v) / 100) as nat);
    } else {
        lemma_dec_rep_len_u32((v / 100) as nat);
        if v <= 999 {
            assert(v / 100 < 10);
            assert(dec_rep((v / 100) as nat).len() == 1);
        } else {
            assert(v / 100 >= 10);
            lemma_dec_rep_len_pos(((v / 100) / 10) as nat);
            assert(dec_rep((v / 100) as nat).len() >= 2);
        }
    }
}

/// Append one decimal digit character.
fn push_digit(b: &mut OutBuf, d: u8)
    requires
        d < 10,
        buf_used(*old(b)) + 1 <= BUF_CAP,
    ensures
        buf_text(*final(b)) == buf_text(*old(b)) + seq![digit_char(d as int)],
        buf_used(*final(b)) == buf_used(*old(b)) + 1,
{
    let s: &str = match d {
        0 => "0",
        1 => "1",
        2 => "2",
        3 => "3",
        4 => "4",
        5 => "5",
        6 => "6",
        7 => "7",
        8 => "8",
        _ => "9",
    };
    proof {
        reveal_strlit("0");
        reveal_strlit("1");
        reveal_strlit("2");
        reveal_strlit("3");
        reveal_strlit("4");
        reveal_strlit("5");
        reveal_strlit("6");
        reveal_strlit("7");
        reveal_strlit("8");
        reveal_strlit("9");
        assert(s@ =~= seq![digit_char(d as int)]);
    }
    buf_push_str(b, s);
}

/// Append the decimal digits of `n`, most significant first.
fn push_dec(b: &mut OutBuf, n: u32)
    requires
        buf_used(*old(b)) + 11 <= BUF_CAP,
    ensures
        buf_text(*final(b)) == buf_text(*old(b)) + dec_rep(n as nat),
        buf_used(*final(b)) == buf_used(*old(b)) + dec_rep(n as nat).len(),
        1 <= dec_rep(n as nat).len() <= 10,
    decreases n,
{
    proof {
        lemma_dec_rep_len_u32(n as nat);
    }
    if n >= 10 {
        push_dec(b, n / 10);
        push_digit(b, (n % 10) as u8);
        proof {
            assert(buf_text(*final(b)) =~= buf_text(*old(b)) + dec_rep(n as nat));
        }
    } else {
        push_digit(b, n as u8);
    }
}

/// Append `v` hundredths with two decimal places.
pub fn push_centi(b: &mut OutBuf, v: i32)
    requires
        buf_used(*old(b)) + 14 <= BUF_CAP,
    ensures
        buf_text(*final(b)) == buf_text(*old(b)) + fmt_centi(v as int),
        buf_used(*final(b)) == buf_used(*old(b)) + fmt_centi(v as int).len(),
        4 <= fmt_centi(v as int).len() <= 14,
{
    proof {
        lemma_fmt_centi_len(v as int);
    }
    let mag: u32 = if v < 0 {
        (-(v as i64)) as u32
    } else {
        v as u32
    };
    assert(mag == if v < 0 { -(v as int) } else { v as int });
    if v < 0 {
        proof {
            reveal_strlit("-");
        }
        buf_push_str(b, "-");
    }
    push_dec(b, mag / 100);
    proof {
        reveal_strlit(".");
    }
    buf_push_str(b, ".");
    push_digit(b, ((mag % 100) / 10) as u8);
    push_digit(b, (mag % 10) as u8);
    proof {
        assert((mag as int % 100) / 10 == (mag % 100) as int / 10);
        assert(buf_text(*final(b)) =~= buf_text(*old(b)) + fmt_centi(v as int));
    }
}

/// Append `v` hundredths in the fixed five-wide cell format: two decimal
/// places, left-padded with a space when the bare format is shorter than
/// five characters.
pub fn push_centi_pad5(b: &mut OutBuf, v: i32)
    requires
        buf_used(*old(b)) + 15 <= BUF_CAP,
    ensures
        buf_text(*final(b)) == buf_text(*old(b)) + fmt_centi_pad5(v as int),
        buf_used(*final(b)) == buf_used(*old(b)) + fmt_centi_pad5(v as int).len(),
        5 <= fmt_centi_pad5(v as int).len() <= 15,
{
    proof {
        lemma_fmt_centi_len(v as int);
    }
    if 0 <= v && v <= 999 {
        proof {
            reveal_strlit(" ");
        }
        buf_push_str(b, " ");
    }
    push_centi(b, v);
    proof {
        assert(buf_text(*final(b)) =~= buf_text(*old(b)) + fmt_centi_pad5(v as int));
    }
}

} // verus!
