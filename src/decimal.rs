//! Decimal text of non-negative integers and of fixed-point tenths.
use vstd::prelude::*;
use vstd::string::StrSliceExecFns;
use vstd::string::StringExecFns;

use crate::text::{lemma_single_line_concat, single_line};

verus! {

/// The ten decimal digits, in order of value.
pub open spec fn digit_char(d: nat) -> char {
    "0123456789"@[d as int]
}

/// The decimal digits of `n`, most significant first, without leading zeros.
pub open spec fn dec_text(n: nat) -> Seq<char>
    decreases n,
{
    if n < 10 {
        seq![digit_char(n)]
    } else {
        dec_text(n / 10) + seq![digit_char(n % 10)]
    }
}

/// `t` tenths written with exactly one decimal place (`253` is `25.3`).
pub open spec fn tenths_text(t: nat) -> Seq<char> {
    dec_text(t / 10) + "."@ + seq![digit_char(t % 10)]
}

/// The decimal text of a number holds no line break.
pub proof fn lemma_dec_text_single_line(n: nat)
    ensures
        single_line(dec_text(n)),
    decreases n,
{
    reveal_strlit("0123456789");
    if n >= 10 {
        lemma_dec_text_single_line(n / 10);
        lemma_single_line_concat(dec_text(n / 10), seq![digit_char(n % 10)]);
    }
}

/// Tenths written with one decimal place hold no line break.
pub proof fn lemma_tenths_text_single_line(t: nat)
    ensures
        single_line(tenths_text(t)),
{
    reveal_strlit("0123456789");
    reveal_strlit(".");
    lemma_dec_text_single_line(t / 10);
    lemma_single_line_concat(dec_text(t / 10), "."@);
    lemma_single_line_concat(dec_text(t / 10) + "."@, seq![digit_char(t % 10)]);
}

/// Appends the digit `d` to `out`.
fn push_digit(out: &mut String, d: u128)
    requires
        d < 10,
    ensures
        final(out)@ == old(out)@ + seq![digit_char(d as nat)],
{
    let digits = "0123456789";
    proof {
        reveal_strlit("0123456789");
    }
    let i = d as usize;
    let one = digits.substring_char(i, i + 1);
    assert(one@ =~= seq![digit_char(d as nat)]);
    out.append(one);
}

/// Appends the decimal text of `n` to `out`.
pub fn push_decimal(out: &mut String, n: u128)
    ensures
        final(out)@ == old(out)@ + dec_text(n as nat),
    decreases n,
{
    if n >= 10 {
        push_decimal(out, n / 10);
    }
    push_digit(out, n % 10);
    assert(out@ =~= old(out)@ + dec_text(n as nat));
}

/// Appends `t` tenths, written with one decimal place, to `out`.
pub fn push_tenths(out: &mut String, t: u128)
    ensures
        final(out)@ == old(out)@ + tenths_text(t as nat),
{
    push_decimal(out, t / 10);
    out.append(".");
    push_digit(out, t % 10);
    assert(out@ =~= old(out)@ + tenths_text(t as nat));
}

} // verus!
