//! The padding of one value: how much fill, on which side, and what is
//! written.

use crate::excess::{Excess, ExcessHandler, PadError};
use crate::text::{push_repeated, repeated, written};
use crate::width::{Render, Width};
use vstd::prelude::*;

verus! {

/// The side of the value on which the pad is placed.
#[derive(Debug, Clone, Copy, PartialEq, Eq, Structural)]
pub enum PadDirection {
    /// The pad comes before the value.
    Left,
    /// The pad comes after the value.
    Right,
}

/// Whether a value of the given width fits into the total width. A value
/// that is exactly as wide as the total width fits.
pub open spec fn fits(value_width: nat, total_width: nat) -> bool {
    value_width <= total_width
}

/// The number of pad blocks that fill a value up to the total width.
pub open spec fn pad_count(value_width: nat, total_width: nat) -> nat {
    if value_width <= total_width {
        (total_width - value_width) as nat
    } else {
        0
    }
}

/// A value's rendering with `count` pad blocks on the given side.
pub open spec fn padded_text(
    value: Seq<char>,
    pad_block: Seq<char>,
    count: nat,
    direction: PadDirection,
) -> Seq<char> {
    match direction {
        PadDirection::Left => repeated(pad_block, count) + value,
        PadDirection::Right => value + repeated(pad_block, count),
    }
}

/// The width of the padded text, where widths add up: that of the value and
/// that of each of the `count` pad blocks. With pad blocks one column wide
/// this is the value's width plus `count`; with wider or narrower blocks the
/// padded text is as wide as this says, and the total width may be missed.
pub open spec fn padded_width(value_width: nat, pad_block_width: nat, count: nat) -> nat {
    value_width + count * pad_block_width
}

/// The record that the excess policy receives for a value that does not fit.
pub open spec fn excess_of<'a, Value: Width, PadBlock: Render>(
    value: &'a Value,
    pad_block: &'a PadBlock,
    total_width: usize,
) -> Excess<'a, Value, PadBlock> {
    Excess { value, value_width: value.width_spec() as usize, total_width, pad_block }
}

/// What writing a padded value does to the sink, and what it returns.
///
/// A value that fits is written with its pad and the result is `Ok`; for one
/// that does not fit, the excess policy decides both.
pub open spec fn renders<Value: Width, PadBlock: Render, HandleExcess: ExcessHandler<
    Value,
    PadBlock,
>>(
    value: &Value,
    pad_block: &PadBlock,
    total_width: usize,
    pad_direction: PadDirection,
    handle_excess: &HandleExcess,
    before: Seq<char>,
    after: Seq<char>,
    result: Result<(), PadError>,
) -> bool {
    if fits(value.width_spec(), total_width as nat) {
        &&& result == Ok::<(), PadError>(())
        &&& after == before + padded_text(
            value.rendering(),
            pad_block.rendering(),
            pad_count(value.width_spec(), total_width as nat),
            pad_direction,
        )
    } else {
        handle_excess.handled(excess_of(value, pad_block, total_width), before, after, result)
    }
}

/// Whether a padded value can be written: the excess policy accepts the
/// value where it does not fit.
pub open spec fn renderable<Value: Width, PadBlock: Render, HandleExcess: ExcessHandler<
    Value,
    PadBlock,
>>(value: &Value, pad_block: &PadBlock, total_width: usize, handle_excess: &HandleExcess) -> bool {
    !fits(value.width_spec(), total_width as nat) ==> handle_excess.accepts(
        excess_of(value, pad_block, total_width),
    )
}

/// Whether the policy has a single outcome for this excess: whatever the
/// sink holds, it adds the same text to it and gives the same result.
pub open spec fn single_outcome<Value: Width, PadBlock: Render, HandleExcess: ExcessHandler<
    Value,
    PadBlock,
>>(handle_excess: &HandleExcess, excess: Excess<'_, Value, PadBlock>) -> bool {
    forall|
        first_before: Seq<char>,
        first_after: Seq<char>,
        first_result: Result<(), PadError>,
        second_before: Seq<char>,
        second_after: Seq<char>,
        second_result: Result<(), PadError>,
    |
        #[trigger] handle_excess.handled(excess, first_before, first_after, first_result)
            && #[trigger] handle_excess.handled(
            excess,
            second_before,
            second_after,
            second_result,
        ) ==> first_result == second_result && written(first_before, first_after) == written(
            second_before,
            second_after,
        )
}

/// Writes `value` to the sink, padded with copies of `pad_block` to
/// `total_width` columns on the side that `pad_direction` names.
///
/// A value that is wider than `total_width` is handed to `handle_excess`
/// together with the sink, and nothing else is written.
pub fn write_padded<Value: Width, PadBlock: Render, HandleExcess: ExcessHandler<Value, PadBlock>>(
    value: &Value,
    pad_block: &PadBlock,
    total_width: usize,
    pad_direction: PadDirection,
    handle_excess: &HandleExcess,
    sink: &mut String,
) -> (result: Result<(), PadError>)
    requires
        renderable(value, pad_block, total_width, handle_excess),
    ensures
        renders(
            value,
            pad_block,
            total_width,
            pad_direction,
            handle_excess,
            old(sink)@,
            final(sink)@,
            result,
        ),
        old(sink)@.is_prefix_of(final(sink)@),
{
    let value_width: usize = value.width();
    if total_width < value_width {
        return handle_excess.handle_excess(
            Excess { value, value_width, total_width, pad_block },
            sink,
        );
    }
    let pad_width: usize = total_width - value_width;
    let mut block = String::new();
    pad_block.write_to(&mut block);
    assert(block@ =~= pad_block.rendering());
    match pad_direction {
        PadDirection::Left => {
            push_repeated(sink, block.as_str(), pad_width);
            value.write_to(sink);
        },
        PadDirection::Right => {
            value.write_to(sink);
            push_repeated(sink, block.as_str(), pad_width);
        },
    }
    proof {
        let fill = repeated(pad_block.rendering(), pad_width as nat);
        assert(old(sink)@ + fill + value.rendering() =~= old(sink)@ + (fill + value.rendering()));
        assert(old(sink)@ + value.rendering() + fill =~= old(sink)@ + (value.rendering() + fill));
    }
    Ok(())
}

} // verus!
