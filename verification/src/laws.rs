//! What holds of every padded value, whatever its parts.

use crate::excess::{ExcessHandler, ForbidExcess, IgnoreExcess, PadError, TruncateExcess};
use crate::pad::{
    excess_of, fits, pad_count, padded_text, padded_width, renders, single_outcome, PadDirection,
};
use crate::text::{lemma_repeated_len, lemma_written_of_append, repeated, written};
use crate::width::{Render, Width};
use vstd::prelude::*;

verus! {

/// A value that fits, padded with blocks one column wide, is exactly as wide
/// as the total width, on whichever side the pad is placed. With blocks of
/// another width it is as wide as the value and its blocks together.
pub proof fn lemma_padded_width_is_total<Value: Width, PadBlock: Width>(
    value: &Value,
    pad_block: &PadBlock,
    total_width: usize,
)
    requires
        fits(value.width_spec(), total_width as nat),
    ensures
        pad_block.width_spec() == 1 ==> padded_width(
            value.width_spec(),
            pad_block.width_spec(),
            pad_count(value.width_spec(), total_width as nat),
        ) == total_width,
        padded_width(
            value.width_spec(),
            pad_block.width_spec(),
            pad_count(value.width_spec(), total_width as nat),
        ) == value.width_spec() + (total_width - value.width_spec()) * pad_block.width_spec(),
{
    let count = pad_count(value.width_spec(), total_width as nat);
    assert(pad_block.width_spec() == 1 ==> count * pad_block.width_spec() == count)
        by (nonlinear_arith);
}

/// Where a value is as wide as its rendering is long, and the pad block renders
/// as one character, the text of a padded value that fits is exactly
/// `total_width` characters long, on whichever side the pad is placed.
pub proof fn lemma_padded_text_len<Value: Width, PadBlock: Render>(
    value: &Value,
    pad_block: &PadBlock,
    total_width: usize,
    pad_direction: PadDirection,
)
    requires
        fits(value.width_spec(), total_width as nat),
        value.rendering().len() == value.width_spec(),
        pad_block.rendering().len() == 1,
    ensures
        padded_text(
            value.rendering(),
            pad_block.rendering(),
            pad_count(value.width_spec(), total_width as nat),
            pad_direction,
        ).len() == total_width,
{
    let count = pad_count(value.width_spec(), total_width as nat);
    lemma_repeated_len(pad_block.rendering(), count);
    assert(count * 1 == count) by (nonlinear_arith);
}

/// With the pad on the left, a value that fits is written as
/// `total_width - width` pad blocks followed by the value's own rendering.
pub proof fn lemma_left_pad_precedes_value<
    Value: Width,
    PadBlock: Render,
    HandleExcess: ExcessHandler<Value, PadBlock>,
>(
    value: &Value,
    pad_block: &PadBlock,
    total_width: usize,
    handle_excess: &HandleExcess,
    before: Seq<char>,
    after: Seq<char>,
    result: Result<(), PadError>,
)
    requires
        fits(value.width_spec(), total_width as nat),
        renders(
            value,
            pad_block,
            total_width,
            PadDirection::Left,
            handle_excess,
            before,
            after,
            result,
        ),
    ensures
        result is Ok,
        written(before, after) == repeated(
            pad_block.rendering(),
            (total_width - value.width_spec()) as nat,
        ) + value.rendering(),
{
    let fill = repeated(pad_block.rendering(), (total_width - value.width_spec()) as nat);
    lemma_written_of_append(before, fill + value.rendering());
}

/// With the pad on the right, a value that fits is written as its own
/// rendering followed by `total_width - width` pad blocks.
pub proof fn lemma_right_pad_follows_value<
    Value: Width,
    PadBlock: Render,
    HandleExcess: ExcessHandler<Value, PadBlock>,
>(
    value: &Value,
    pad_block: &PadBlock,
    total_width: usize,
    handle_excess: &HandleExcess,
    before: Seq<char>,
    after: Seq<char>,
    result: Result<(), PadError>,
)
    requires
        fits(value.width_spec(), total_width as nat),
        renders(
            value,
            pad_block,
            total_width,
            PadDirection::Right,
            handle_excess,
            before,
            after,
            result,
        ),
    ensures
        result is Ok,
        written(before, after) == value.rendering() + repeated(
            pad_block.rendering(),
            (total_width - value.width_spec()) as nat,
        ),
{
    let fill = repeated(pad_block.rendering(), (total_width - value.width_spec()) as nat);
    lemma_written_of_append(before, value.rendering() + fill);
}

/// A value that is exactly as wide as the total width is written as it is,
/// with no pad block, whatever the direction and whatever the excess policy:
/// it fits, so the policy is not asked.
pub proof fn lemma_exact_fit_is_unpadded<
    Value: Width,
    PadBlock: Render,
    HandleExcess: ExcessHandler<Value, PadBlock>,
>(
    value: &Value,
    pad_block: &PadBlock,
    total_width: usize,
    pad_direction: PadDirection,
    handle_excess: &HandleExcess,
    before: Seq<char>,
    after: Seq<char>,
    result: Result<(), PadError>,
)
    requires
        value.width_spec() == total_width,
        renders(
            value,
            pad_block,
            total_width,
            pad_direction,
            handle_excess,
            before,
            after,
            result,
        ),
    ensures
        fits(value.width_spec(), total_width as nat),
        pad_count(value.width_spec(), total_width as nat) == 0,
        result is Ok,
        written(before, after) == value.rendering(),
        after == before + value.rendering(),
{
    let fill = repeated(pad_block.rendering(), 0);
    assert(fill =~= Seq::<char>::empty());
    assert(fill + value.rendering() =~= value.rendering());
    assert(value.rendering() + fill =~= value.rendering());
    lemma_written_of_append(before, value.rendering());
}

/// For a value that is wider than the total width, `ForbidExcess` gives the
/// error `Excess` and writes nothing.
pub proof fn lemma_forbid_rejects_excess<Value: Width, PadBlock: Render>(
    value: &Value,
    pad_block: &PadBlock,
    total_width: usize,
    pad_direction: PadDirection,
    before: Seq<char>,
    after: Seq<char>,
    result: Result<(), PadError>,
)
    requires
        value.width_spec() > total_width,
        renders(
            value,
            pad_block,
            total_width,
            pad_direction,
            &ForbidExcess,
            before,
            after,
            result,
        ),
    ensures
        result == Err::<(), PadError>(PadError::Excess),
        after == before,
{
}

/// For a value that is wider than the total width, `IgnoreExcess` writes the
/// value's own rendering and nothing else, and succeeds.
pub proof fn lemma_ignore_writes_value<Value: Width, PadBlock: Render>(
    value: &Value,
    pad_block: &PadBlock,
    total_width: usize,
    pad_direction: PadDirection,
    before: Seq<char>,
    after: Seq<char>,
    result: Result<(), PadError>,
)
    requires
        value.width_spec() > total_width,
        renders(
            value,
            pad_block,
            total_width,
            pad_direction,
            &IgnoreExcess,
            before,
            after,
            result,
        ),
    ensures
        result is Ok,
        after == before + value.rendering(),
        written(before, after) == value.rendering(),
{
    lemma_written_of_append(before, value.rendering());
}

/// For a value that is wider than the total width, `TruncateExcess` writes a
/// leading part of the value's rendering, the one that the value gives for the
/// total width, and succeeds; where the value has none, it gives the error
/// `UnsupportedTruncation` and writes nothing.
pub proof fn lemma_truncate_writes_leading_part<Value: Width, PadBlock: Render>(
    value: &Value,
    pad_block: &PadBlock,
    total_width: usize,
    pad_direction: PadDirection,
    before: Seq<char>,
    after: Seq<char>,
    result: Result<(), PadError>,
)
    requires
        value.width_spec() > total_width,
        renders(
            value,
            pad_block,
            total_width,
            pad_direction,
            &TruncateExcess,
            before,
            after,
            result,
        ),
    ensures
        value.truncation(total_width as nat) is Some ==> result is Ok && written(before, after)
            == value.truncation(total_width as nat).unwrap() && written(
            before,
            after,
        ).is_prefix_of(value.rendering()),
        value.truncation(total_width as nat) is None ==> result == Err::<(), PadError>(
            PadError::UnsupportedTruncation,
        ) && after == before,
{
    value.lemma_truncation_is_prefix(total_width as nat);
    if let Some(cut) = value.truncation(total_width as nat) {
        lemma_written_of_append(before, cut);
    }
}

/// Writing the same padded value twice, to two sinks, adds the same text to
/// both and gives the same result: always where the value fits, and for a value
/// that does not fit where the excess policy has a single outcome for it.
pub proof fn lemma_rendering_is_repeatable<
    Value: Width,
    PadBlock: Render,
    HandleExcess: ExcessHandler<Value, PadBlock>,
>(
    value: &Value,
    pad_block: &PadBlock,
    total_width: usize,
    pad_direction: PadDirection,
    handle_excess: &HandleExcess,
    first_before: Seq<char>,
    first_after: Seq<char>,
    first_result: Result<(), PadError>,
    second_before: Seq<char>,
    second_after: Seq<char>,
    second_result: Result<(), PadError>,
)
    requires
        renders(
            value,
            pad_block,
            total_width,
            pad_direction,
            handle_excess,
            first_before,
            first_after,
            first_result,
        ),
        renders(
            value,
            pad_block,
            total_width,
            pad_direction,
            handle_excess,
            second_before,
            second_after,
            second_result,
        ),
        fits(value.width_spec(), total_width as nat) || single_outcome(
            handle_excess,
            excess_of(value, pad_block, total_width),
        ),
    ensures
        first_result == second_result,
        written(first_before, first_after) == written(second_before, second_after),
{
    if fits(value.width_spec(), total_width as nat) {
        let text = padded_text(
            value.rendering(),
            pad_block.rendering(),
            pad_count(value.width_spec(), total_width as nat),
            pad_direction,
        );
        lemma_written_of_append(first_before, text);
        lemma_written_of_append(second_before, text);
    }
}

/// `ForbidExcess`, `IgnoreExcess` and `TruncateExcess` each have a single
/// outcome for every excess.
pub proof fn lemma_named_policies_have_single_outcome<Value: Width, PadBlock: Render>(
    value: &Value,
    pad_block: &PadBlock,
    total_width: usize,
)
    ensures
        single_outcome(&ForbidExcess, excess_of(value, pad_block, total_width)),
        single_outcome(&IgnoreExcess, excess_of(value, pad_block, total_width)),
        single_outcome(&TruncateExcess, excess_of(value, pad_block, total_width)),
{
    let excess = excess_of(value, pad_block, total_width);
    assert forall|
        b1: Seq<char>,
        a1: Seq<char>,
        r1: Result<(), PadError>,
        b2: Seq<char>,
        a2: Seq<char>,
        r2: Result<(), PadError>,
    |
        #[trigger] ExcessHandler::<Value, PadBlock>::handled(&ForbidExcess, excess, b1, a1, r1)
            && #[trigger] ExcessHandler::<Value, PadBlock>::handled(
            &ForbidExcess,
            excess,
            b2,
            a2,
            r2,
        ) implies r1 == r2 && written(b1, a1) == written(b2, a2) by {
        assert(written(b1, a1) =~= written(b2, a2));
    }
    assert forall|
        b1: Seq<char>,
        a1: Seq<char>,
        r1: Result<(), PadError>,
        b2: Seq<char>,
        a2: Seq<char>,
        r2: Result<(), PadError>,
    |
        #[trigger] ExcessHandler::<Value, PadBlock>::handled(&IgnoreExcess, excess, b1, a1, r1)
            && #[trigger] ExcessHandler::<Value, PadBlock>::handled(
            &IgnoreExcess,
            excess,
            b2,
            a2,
            r2,
        ) implies r1 == r2 && written(b1, a1) == written(b2, a2) by {
        lemma_written_of_append(b1, value.rendering());
        lemma_written_of_append(b2, value.rendering());
    }
    assert forall|
        b1: Seq<char>,
        a1: Seq<char>,
        r1: Result<(), PadError>,
        b2: Seq<char>,
        a2: Seq<char>,
        r2: Result<(), PadError>,
    |
        #[trigger] ExcessHandler::<Value, PadBlock>::handled(&TruncateExcess, excess, b1, a1, r1)
            && #[trigger] ExcessHandler::<Value, PadBlock>::handled(
            &TruncateExcess,
            excess,
            b2,
            a2,
            r2,
        ) implies r1 == r2 && written(b1, a1) == written(b2, a2) by {
        match value.truncation(total_width as nat) {
            Some(cut) => {
                lemma_written_of_append(b1, cut);
                lemma_written_of_append(b2, cut);
            },
            None => {
                assert(written(b1, a1) =~= written(b2, a2));
            },
        }
    }
}

} // verus!
