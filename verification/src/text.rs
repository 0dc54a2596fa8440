//! Text sinks: what is appended to them, and the repetition of a pad block.

use std::fmt::Write;
use vstd::prelude::*;

verus! {

/// The text made of `times` copies of `unit`, one after another.
pub open spec fn repeated(unit: Seq<char>, times: nat) -> Seq<char>
    decreases times,
{
    if times == 0 {
        Seq::empty()
    } else {
        repeated(unit, (times - 1) as nat) + unit
    }
}

/// Repeating a text multiplies its length.
pub proof fn lemma_repeated_len(unit: Seq<char>, times: nat)
    ensures
        repeated(unit, times).len() == times * unit.len(),
    decreases times,
{
    let n: nat = unit.len();
    if times == 0 {
        assert(times * n == 0) by (nonlinear_arith)
            requires
                times == 0,
        ;
    } else {
        lemma_repeated_len(unit, (times - 1) as nat);
        assert(times * n == (times - 1) * n + n) by (nonlinear_arith);
    }
}

/// Appends `times` copies of `unit` to the sink.
///
/// Calls `fmt_iter::repeat` and formats what it returns into the sink. That
/// function yields its value `times` times, and its result is displayed by
/// writing each item in turn; a `&str` is written as it is, and writing into a
/// `String` does not fail. So the contract claims, without proof, that the sink
/// ends as it began, followed by `times` copies of `unit`. The copies are made
/// one at a time: no text of `times` copies exists beside the sink. As with
/// every growth of a `String`, running out of memory is not spoken of.
#[verifier::external_body]
pub(crate) fn push_repeated(sink: &mut String, unit: &str, times: usize)
    ensures
        final(sink)@ == old(sink)@ + repeated(unit@, times as nat),
{
    let _ = write!(sink, "{}", fmt_iter::repeat(unit, times));
}

/// Appends one character to the sink.
///
/// Calls `String::push`, which the standard library documents as appending the
/// given character to the end of the string. The contract claims, without
/// proof, just that.
#[verifier::external_body]
pub(crate) fn push_char(sink: &mut String, c: char)
    ensures
        final(sink)@ == old(sink)@.push(c),
{
    sink.push(c);
}

/// What was added to a sink that held `before` and now holds `after`.
pub open spec fn written(before: Seq<char>, after: Seq<char>) -> Seq<char> {
    after.skip(before.len() as int)
}

/// A sink that grew by `more` has `more` as what was added to it.
pub proof fn lemma_written_of_append(before: Seq<char>, more: Seq<char>)
    ensures
        written(before, before + more) == more,
        before.is_prefix_of(before + more),
{
    assert((before + more).skip(before.len() as int) =~= more);
    assert((before + more).take(before.len() as int) =~= before);
}

} // verus!
