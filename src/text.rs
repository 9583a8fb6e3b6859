//! Facts about line breaks in text.
use vstd::prelude::*;

verus! {

/// `x` holds no line break.
pub open spec fn single_line(x: Seq<char>) -> bool {
    forall|j: int| 0 <= j < x.len() ==> x[j] != '\n'
}

/// The number of line breaks in `x`.
pub open spec fn newlines(x: Seq<char>) -> nat
    decreases x.len(),
{
    if x.len() == 0 {
        0
    } else {
        newlines(x.drop_last()) + if x.last() == '\n' {
            1nat
        } else {
            0nat
        }
    }
}

/// Two texts without line breaks make one without.
pub proof fn lemma_single_line_concat(a: Seq<char>, b: Seq<char>)
    requires
        single_line(a),
        single_line(b),
    ensures
        single_line(a + b),
{
    assert forall|j: int| 0 <= j < (a + b).len() implies (a + b)[j] != '\n' by {
        if j >= a.len() {
            assert((a + b)[j] == b[j - a.len()]);
        }
    }
}

/// Line breaks of a concatenation add up.
pub proof fn lemma_newlines_concat(a: Seq<char>, b: Seq<char>)
    ensures
        newlines(a + b) == newlines(a) + newlines(b),
    decreases b.len(),
{
    if b.len() == 0 {
        assert(a + b =~= a);
    } else {
        assert((a + b).drop_last() =~= a + b.drop_last());
        lemma_newlines_concat(a, b.drop_last());
    }
}

/// A text without line breaks counts none.
pub proof fn lemma_single_line_newlines(x: Seq<char>)
    requires
        single_line(x),
    ensures
        newlines(x) == 0,
    decreases x.len(),
{
    if x.len() > 0 {
        lemma_single_line_newlines(x.drop_last());
    }
}

/// A single line break counts one.
pub proof fn lemma_newline_alone()
    ensures
        newlines("\n"@) == 1,
{
    reveal_strlit("\n");
    let x = "\n"@;
    assert(x.len() == 1);
    assert(x.last() == '\n');
    assert(x.drop_last() =~= Seq::<char>::empty());
    assert(newlines(Seq::<char>::empty()) == 0);
}

} // verus!
