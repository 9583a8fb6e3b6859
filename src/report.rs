//! The national total, its self-check and the full text report.
use vstd::prelude::*;
use vstd::string::StringExecFns;

use crate::decimal::{dec_text, lemma_dec_text_single_line, push_decimal};
use crate::record::{
    lemma_record_text_single_line, push_record_line, record_line, record_text, Record,
};
use crate::text::{
    lemma_newline_alone, lemma_newlines_concat, lemma_single_line_newlines, newlines, single_line,
};

verus! {

/// The reference value that the sum of all current populations is checked
/// against.
pub const EXPECTED_US_TOTAL: u64 = 341784857;

/// Sum of `population_current` over `s`.
pub open spec fn total(s: Seq<Record>) -> nat
    decreases s.len(),
{
    if s.len() == 0 {
        0
    } else {
        total(s.drop_last()) + s.last().population_current as nat
    }
}

/// The text of the match indicator for an observed total `t`.
pub open spec fn match_text(t: nat) -> Seq<char> {
    if t == EXPECTED_US_TOTAL {
        "True"@
    } else {
        "False"@
    }
}

/// The three lines on the total, and the blank line after them.
pub open spec fn header(t: nat) -> Seq<char> {
    "US Total (sum of states+DC): "@ + dec_text(t) + "\nExpected: "@
        + dec_text(EXPECTED_US_TOTAL as nat) + "\nMatch: "@ + match_text(t) + "\n\n"@
}

/// The record lines of `s`, in the order of `s`.
pub open spec fn lines(s: Seq<Record>) -> Seq<char>
    decreases s.len(),
{
    if s.len() == 0 {
        Seq::empty()
    } else {
        lines(s.drop_last()) + record_line(s.last())
    }
}

/// The whole report on the records `s`.
pub open spec fn report(s: Seq<Record>) -> Seq<char> {
    header(total(s)) + lines(s)
}

/// Every record of `s` is well formed.
pub open spec fn all_wf(s: Seq<Record>) -> bool {
    forall|i: int| 0 <= i < s.len() ==> #[trigger] s[i].wf()
}

/// Appending one record adds its population to the total.
pub proof fn lemma_total_push(s: Seq<Record>, r: Record)
    ensures
        total(s.push(r)) == total(s) + r.population_current,
{
    assert(s.push(r).drop_last() =~= s);
}

/// The total of `s` is at most its length times the largest `u64`.
pub proof fn lemma_total_bound(s: Seq<Record>)
    ensures
        total(s) <= s.len() * (u64::MAX as nat),
    decreases s.len(),
{
    if s.len() > 0 {
        lemma_total_bound(s.drop_last());
    }
}

/// The total of a concatenation is the sum of the totals.
pub proof fn lemma_total_concat(s: Seq<Record>, t: Seq<Record>)
    ensures
        total(s + t) == total(s) + total(t),
    decreases t.len(),
{
    if t.len() == 0 {
        assert(s + t =~= s);
    } else {
        assert((s + t).drop_last() =~= s + t.drop_last());
        lemma_total_concat(s, t.drop_last());
    }
}

/// Setting the current population of the record at `i` to `p` changes the
/// observed total by exactly the difference, and the match indicator then
/// reads `True` exactly when the new total equals the expected one.
pub proof fn lemma_total_after_change(s: Seq<Record>, i: int, p: u64)
    requires
        0 <= i < s.len(),
    ensures
        total(s.update(i, Record { population_current: p, ..s[i] })) + s[i].population_current
            == total(s) + p,
        match_text(total(s.update(i, Record { population_current: p, ..s[i] }))) == (if total(s)
            + p - s[i].population_current == EXPECTED_US_TOTAL {
            "True"@
        } else {
            "False"@
        }),
{
    let r = Record { population_current: p, ..s[i] };
    let u = s.update(i, r);
    assert(s =~= s.take(i) + seq![s[i]] + s.skip(i + 1));
    assert(u =~= s.take(i) + seq![r] + s.skip(i + 1));
    lemma_total_concat(s.take(i) + seq![s[i]], s.skip(i + 1));
    lemma_total_concat(s.take(i), seq![s[i]]);
    lemma_total_concat(s.take(i) + seq![r], s.skip(i + 1));
    lemma_total_concat(s.take(i), seq![r]);
    lemma_total_push(Seq::empty(), s[i]);
    lemma_total_push(Seq::empty(), r);
    assert(seq![s[i]] =~= Seq::<Record>::empty().push(s[i]));
    assert(seq![r] =~= Seq::<Record>::empty().push(r));
}

/// The record lines of a concatenation are those of the first part followed
/// by those of the second: no record is moved or dropped.
pub proof fn lemma_lines_concat(s: Seq<Record>, t: Seq<Record>)
    ensures
        lines(s + t) == lines(s) + lines(t),
    decreases t.len(),
{
    if t.len() == 0 {
        assert(s + t =~= s);
        assert(lines(s) + lines(t) =~= lines(s));
    } else {
        assert((s + t).drop_last() =~= s + t.drop_last());
        lemma_lines_concat(s, t.drop_last());
        assert(lines(s + t) =~= lines(s) + lines(t));
    }
}

/// The record at position `i` has its line right after the lines of all the
/// records before it.
pub proof fn lemma_lines_order(s: Seq<Record>, i: int)
    requires
        0 <= i < s.len(),
    ensures
        lines(s) == lines(s.take(i)) + record_line(s[i]) + lines(s.skip(i + 1)),
{
    assert(s =~= s.take(i) + seq![s[i]] + s.skip(i + 1));
    lemma_lines_concat(s.take(i) + seq![s[i]], s.skip(i + 1));
    lemma_lines_concat(s.take(i), seq![s[i]]);
    let one = seq![s[i]];
    assert(one.drop_last() =~= Seq::<Record>::empty());
    assert(one.last() == s[i]);
    assert(lines(Seq::<Record>::empty()) == Seq::<char>::empty());
    assert(lines(one) =~= record_line(s[i]));
}

/// No record name of `s` holds a line break.
pub open spec fn names_single_line(s: Seq<Record>) -> bool {
    forall|k: int| 0 <= k < s.len() ==> single_line(#[trigger] s[k].name@)
}

/// A text that opens with a line break and holds no other counts one.
proof fn lemma_leading_newline(x: Seq<char>)
    requires
        x.len() > 0,
        x[0] == '\n',
        single_line(x.skip(1)),
    ensures
        newlines(x) == 1,
{
    lemma_newline_alone();
    reveal_strlit("\n");
    assert(x =~= "\n"@ + x.skip(1));
    lemma_newlines_concat("\n"@, x.skip(1));
    lemma_single_line_newlines(x.skip(1));
}

/// The header is four lines: the total, the expected total, the match
/// indicator and a blank line.
pub proof fn lemma_header_newlines(t: nat)
    ensures
        newlines(header(t)) == 4,
{
    let a = "US Total (sum of states+DC): "@;
    let b = "\nExpected: "@;
    let c = "\nMatch: "@;
    let d = "\n\n"@;
    let m = match_text(t);
    reveal_strlit("US Total (sum of states+DC): ");
    reveal_strlit("\nExpected: ");
    reveal_strlit("\nMatch: ");
    reveal_strlit("\n\n");
    reveal_strlit("True");
    reveal_strlit("False");
    reveal_strlit("\n");
    lemma_single_line_newlines(a);
    lemma_single_line_newlines(m);
    lemma_dec_text_single_line(t);
    lemma_single_line_newlines(dec_text(t));
    lemma_dec_text_single_line(EXPECTED_US_TOTAL as nat);
    lemma_single_line_newlines(dec_text(EXPECTED_US_TOTAL as nat));
    lemma_leading_newline(b);
    lemma_leading_newline(c);
    lemma_newline_alone();
    assert(d =~= "\n"@ + "\n"@);
    lemma_newlines_concat("\n"@, "\n"@);
    let e = dec_text(EXPECTED_US_TOTAL as nat);
    lemma_newlines_concat(a, dec_text(t));
    lemma_newlines_concat(a + dec_text(t), b);
    lemma_newlines_concat(a + dec_text(t) + b, e);
    lemma_newlines_concat(a + dec_text(t) + b + e, c);
    lemma_newlines_concat(a + dec_text(t) + b + e + c, m);
    lemma_newlines_concat(a + dec_text(t) + b + e + c + m, d);
}

/// Each record contributes exactly one line: where no name holds a line
/// break, the record lines of `s` hold as many line breaks as `s` has records.
pub proof fn lemma_lines_newlines(s: Seq<Record>)
    requires
        names_single_line(s),
    ensures
        newlines(lines(s)) == s.len(),
    decreases s.len(),
{
    if s.len() > 0 {
        let p = s.drop_last();
        assert(names_single_line(p)) by {
            assert forall|k: int| 0 <= k < p.len() implies single_line(#[trigger] p[k].name@) by {
                assert(p[k] == s[k]);
            }
        }
        lemma_lines_newlines(p);
        let r = s.last();
        assert(single_line(r.name@)) by {
            assert(r == s[s.len() - 1]);
        }
        lemma_record_text_single_line(r);
        lemma_single_line_newlines(record_text(r));
        lemma_newline_alone();
        lemma_newlines_concat(record_text(r), "\n"@);
        lemma_newlines_concat(lines(p), record_line(r));
    }
}

/// Line `i` of the records' part of the report, counted from zero, is the
/// text of record `i`: the report is the header, then the lines of the
/// records before it (one line each), then that record's text and a line
/// break, then the lines of the records after it.
pub proof fn lemma_report_line(s: Seq<Record>, i: int)
    requires
        names_single_line(s),
        0 <= i < s.len(),
    ensures
        report(s) == header(total(s)) + lines(s.take(i)) + record_text(s[i]) + "\n"@ + lines(
            s.skip(i + 1),
        ),
        newlines(header(total(s))) == 4,
        newlines(lines(s.take(i))) == i,
        single_line(record_text(s[i])),
{
    lemma_lines_order(s, i);
    lemma_header_newlines(total(s));
    let p = s.take(i);
    assert(names_single_line(p)) by {
        assert forall|k: int| 0 <= k < p.len() implies single_line(#[trigger] p[k].name@) by {
            assert(p[k] == s[k]);
        }
    }
    lemma_lines_newlines(p);
    lemma_record_text_single_line(s[i]);
    assert(report(s) =~= header(total(s)) + lines(s.take(i)) + record_text(s[i]) + "\n"@ + lines(
        s.skip(i + 1),
    ));
}

/// Sum of the current populations of `records`.
pub fn observed_total(records: &Vec<Record>) -> (r: u128)
    ensures
        r == total(records@),
{
    let mut sum: u128 = 0;
    let mut i: usize = 0;
    while i < records.len()
        invariant
            i <= records@.len(),
            sum == total(records@.take(i as int)),
        decreases records@.len() - i,
    {
        proof {
            assert(records@.take(i + 1) =~= records@.take(i as int).push(records@[i as int]));
            lemma_total_push(records@.take(i as int), records@[i as int]);
            lemma_total_bound(records@.take(i + 1));
            let n: nat = (i + 1) as nat;
            assert(n <= usize::MAX);
            assert(n * (u64::MAX as nat) < u128::MAX) by (nonlinear_arith)
                requires
                    n <= usize::MAX,
            ;
        }
        sum = sum + records[i].population_current as u128;
        i = i + 1;
    }
    assert(records@.take(i as int) =~= records@);
    sum
}

/// Whether an observed total matches the expected one.
pub fn totals_match(t: u128) -> (r: bool)
    ensures
        r == (t == EXPECTED_US_TOTAL),
{
    t == EXPECTED_US_TOTAL as u128
}

/// The report on `records`: the total and its check, then one line per
/// record, in the order of `records`.
pub fn render_report(records: &Vec<Record>) -> (r: String)
    requires
        all_wf(records@),
    ensures
        r@ == report(records@),
{
    let t = observed_total(records);
    let mut out = String::new();
    out.append("US Total (sum of states+DC): ");
    push_decimal(&mut out, t);
    out.append("\nExpected: ");
    push_decimal(&mut out, EXPECTED_US_TOTAL as u128);
    out.append("\nMatch: ");
    if totals_match(t) {
        out.append("True");
    } else {
        out.append("False");
    }
    out.append("\n\n");
    assert(out@ =~= header(total(records@)));
    let mut i: usize = 0;
    while i < records.len()
        invariant
            i <= records@.len(),
            all_wf(records@),
            out@ == header(total(records@)) + lines(records@.take(i as int)),
        decreases records@.len() - i,
    {
        assert(records@.take(i + 1).drop_last() =~= records@.take(i as int));
        push_record_line(&mut out, &records[i]);
        i = i + 1;
        assert(out@ =~= header(total(records@)) + lines(records@.take(i as int)));
    }
    assert(records@.take(i as int) =~= records@);
    out
}

} // verus!
