//! One jurisdiction's demographic record and the figures derived from it.
use vstd::prelude::*;
use vstd::string::StrSliceExecFns;
use vstd::string::StringExecFns;

use vstd::arithmetic::div_mod::{lemma_fundamental_div_mod, lemma_mod_bound};

use crate::decimal::{
    dec_text, lemma_dec_text_single_line, lemma_tenths_text_single_line, push_decimal, push_tenths,
    tenths_text,
};
use crate::text::{lemma_single_line_concat, single_line};

verus! {

/// One row of the table: a state or the District of Columbia.
#[derive(Clone, Copy, Debug)]
pub struct Record {
    /// Human-readable name of the jurisdiction.
    pub name: &'static str,
    /// Population in the reference year.
    pub population_current: u64,
    /// Population in the base year: the denominator of the change.
    pub population_base: u64,
    /// Land area, in hundredths of a square unit.
    pub land_area_hundredths: u64,
    /// Median age, in tenths of a year.
    pub median_age_tenths: u64,
}

/// `t` tenths is the quotient `n / d` (itself counted in tenths) rounded to
/// the nearest integer, a half going up: `t - 1/2 <= n / d < t + 1/2`.
pub open spec fn is_rounded_tenths(t: int, n: int, d: int) -> bool {
    2 * t * d - d <= 2 * n && 2 * n < 2 * t * d + d
}

/// `(2n + d) / 2d` rounds `n / d` to the nearest integer, a half going up.
pub proof fn lemma_round_half_up(n: int, d: int)
    requires
        n >= 0,
        d > 0,
    ensures
        is_rounded_tenths((n * 2 + d) / (2 * d), n, d),
{
    let x = n * 2 + d;
    let q = x / (2 * d);
    lemma_fundamental_div_mod(x, 2 * d);
    lemma_mod_bound(x, 2 * d);
    let m = x % (2 * d);
    assert(x == (2 * d) * q + m);
    assert(2 * q * d == (2 * d) * q) by (nonlinear_arith);
}

impl Record {
    /// A record the figures can be derived from: no division by zero.
    pub open spec fn wf(&self) -> bool {
        self.land_area_hundredths > 0 && self.population_base > 0
    }

    /// Density in tenths: `population_current / land_area` rounded to one
    /// decimal place, halves away from zero.
    pub open spec fn density_tenths_spec(&self) -> nat {
        ((self.population_current * 2000 + self.land_area_hundredths) / (2
            * self.land_area_hundredths)) as nat
    }

    /// The change since the base year is negative.
    pub open spec fn change_negative(&self) -> bool {
        self.population_current < self.population_base
    }

    /// Magnitude of the change since the base year, in tenths of a percent,
    /// rounded to one decimal place, halves away from zero.
    pub open spec fn change_tenths_spec(&self) -> nat {
        ((self.change_magnitude() * 2000 + self.population_base) / (2 * self.population_base)) as nat
    }

    /// `|population_current - population_base|`.
    pub open spec fn change_magnitude(&self) -> int {
        if self.change_negative() {
            self.population_base - self.population_current
        } else {
            self.population_current - self.population_base
        }
    }

    /// The density in tenths is the exact `population_current / land_area`
    /// rounded to one decimal place.
    pub proof fn lemma_density_rounding(&self)
        requires
            self.wf(),
        ensures
            is_rounded_tenths(
                self.density_tenths_spec() as int,
                1000 * self.population_current,
                self.land_area_hundredths as int,
            ),
    {
        lemma_round_half_up(1000 * self.population_current, self.land_area_hundredths as int);
    }

    /// The magnitude of the change in tenths of a percent is the exact
    /// `|current - base| / base * 100` rounded to one decimal place.
    pub proof fn lemma_change_rounding(&self)
        requires
            self.wf(),
        ensures
            is_rounded_tenths(
                self.change_tenths_spec() as int,
                1000 * self.change_magnitude(),
                self.population_base as int,
            ),
    {
        lemma_round_half_up(1000 * self.change_magnitude(), self.population_base as int);
    }

    /// Density of population per square unit, in tenths, rounded.
    pub fn density_tenths(&self) -> (r: u128)
        requires
            self.wf(),
        ensures
            r == self.density_tenths_spec(),
            is_rounded_tenths(
                r as int,
                1000 * self.population_current,
                self.land_area_hundredths as int,
            ),
    {
        proof {
            self.lemma_density_rounding();
        }
        let area = self.land_area_hundredths as u128;
        (self.population_current as u128 * 2000 + area) / (2 * area)
    }

    /// Magnitude of the percentage change since the base year, in tenths,
    /// rounded; its sign is given by [`Record::change_is_negative`].
    pub fn change_tenths(&self) -> (r: u128)
        requires
            self.wf(),
        ensures
            r == self.change_tenths_spec(),
            is_rounded_tenths(r as int, 1000 * self.change_magnitude(), self.population_base as int),
    {
        proof {
            self.lemma_change_rounding();
        }
        let base = self.population_base as u128;
        let diff: u128 = if self.population_current < self.population_base {
            (self.population_base - self.population_current) as u128
        } else {
            (self.population_current - self.population_base) as u128
        };
        (diff * 2000 + base) / (2 * base)
    }

    /// Whether the population shrank since the base year.
    pub fn change_is_negative(&self) -> (r: bool)
        ensures
            r == self.change_negative(),
    {
        self.population_current < self.population_base
    }
}

/// The name under which a jurisdiction is shown: `DC` for the District of
/// Columbia, the name itself otherwise.
pub open spec fn display_name_spec(name: Seq<char>) -> Seq<char> {
    if name == "District of Columbia"@ {
        "DC"@
    } else {
        name
    }
}

/// The text of the report line for the record `r`, without its line break.
pub open spec fn record_text(r: Record) -> Seq<char> {
    display_name_spec(r.name@) + ": pop="@ + dec_text(r.population_current as nat) + ", dn="@
        + tenths_text(r.density_tenths_spec()) + ", ch="@ + (if r.change_negative() {
        "-"@
    } else {
        Seq::<char>::empty()
    }) + tenths_text(r.change_tenths_spec()) + ", ag="@ + tenths_text(
        r.median_age_tenths as nat,
    )
}

/// One line of the report for the record `r`, line break included.
pub open spec fn record_line(r: Record) -> Seq<char> {
    record_text(r) + "\n"@
}

/// Where the name holds no line break, neither does the text of the record's
/// line: its line break is the one at its end.
pub proof fn lemma_record_text_single_line(r: Record)
    requires
        single_line(r.name@),
    ensures
        single_line(record_text(r)),
{
    reveal_strlit("DC");
    reveal_strlit(": pop=");
    reveal_strlit(", dn=");
    reveal_strlit(", ch=");
    reveal_strlit("-");
    reveal_strlit(", ag=");
    lemma_dec_text_single_line(r.population_current as nat);
    lemma_tenths_text_single_line(r.density_tenths_spec());
    lemma_tenths_text_single_line(r.change_tenths_spec());
    lemma_tenths_text_single_line(r.median_age_tenths as nat);
    let sign: Seq<char> = if r.change_negative() {
        "-"@
    } else {
        Seq::<char>::empty()
    };
    let a = display_name_spec(r.name@);
    let b = a + ": pop="@;
    lemma_single_line_concat(a, ": pop="@);
    let c = b + dec_text(r.population_current as nat);
    lemma_single_line_concat(b, dec_text(r.population_current as nat));
    let d = c + ", dn="@;
    lemma_single_line_concat(c, ", dn="@);
    let e = d + tenths_text(r.density_tenths_spec());
    lemma_single_line_concat(d, tenths_text(r.density_tenths_spec()));
    let f = e + ", ch="@;
    lemma_single_line_concat(e, ", ch="@);
    let g = f + sign;
    lemma_single_line_concat(f, sign);
    let h = g + tenths_text(r.change_tenths_spec());
    lemma_single_line_concat(g, tenths_text(r.change_tenths_spec()));
    let k = h + ", ag="@;
    lemma_single_line_concat(h, ", ag="@);
    lemma_single_line_concat(k, tenths_text(r.median_age_tenths as nat));
}

/// Whether two strings hold the same characters.
pub fn same_text(a: &str, b: &str) -> (r: bool)
    ensures
        r == (a@ == b@),
{
    let n = a.unicode_len();
    if n != b.unicode_len() {
        return false;
    }
    let mut i: usize = 0;
    while i < n
        invariant
            n == a@.len() == b@.len(),
            i <= n,
            a@.subrange(0, i as int) == b@.subrange(0, i as int),
        decreases n - i,
    {
        if a.get_char(i) != b.get_char(i) {
            assert(a@[i as int] != b@[i as int]);
            return false;
        }
        assert(a@.subrange(0, i + 1) =~= a@.subrange(0, i as int).push(a@[i as int]));
        assert(b@.subrange(0, i + 1) =~= b@.subrange(0, i as int).push(b@[i as int]));
        i = i + 1;
    }
    assert(a@ =~= a@.subrange(0, n as int));
    assert(b@ =~= b@.subrange(0, n as int));
    true
}

/// The name under which `name` is shown in the report.
pub fn display_name(name: &'static str) -> (r: &'static str)
    ensures
        r@ == display_name_spec(name@),
{
    if same_text(name, "District of Columbia") {
        "DC"
    } else {
        name
    }
}

/// Appends the report line of `r` to `out`.
pub fn push_record_line(out: &mut String, r: &Record)
    requires
        r.wf(),
    ensures
        final(out)@ == old(out)@ + record_line(*r),
{
    out.append(display_name(r.name));
    out.append(": pop=");
    push_decimal(out, r.population_current as u128);
    out.append(", dn=");
    push_tenths(out, r.density_tenths());
    out.append(", ch=");
    if r.change_is_negative() {
        out.append("-");
    }
    push_tenths(out, r.change_tenths());
    out.append(", ag=");
    push_tenths(out, r.median_age_tenths as u128);
    out.append("\n");
    assert(out@ =~= old(out)@ + record_line(*r));
}

} // verus!
