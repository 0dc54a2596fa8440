//! A single padded item.

use crate::excess::{Excess, ExcessHandler, ExcessHandlingFunction, PadError};
use crate::pad::{
    fits, pad_count, padded_text, renderable, renders, write_padded, PadDirection,
};
use crate::text::repeated;
use crate::width::{Render, Width};
use vstd::prelude::*;

verus! {

/// A value together with all that is needed to pad it: the block that the
/// pad is made of, the width to fill, the side of the pad, and the policy for
/// a value that is too wide.
///
/// The pad block is expected to be one column wide. With a block of another
/// width the pad still holds `total_width - width` blocks, so that the padded
/// text is wider or narrower than `total_width`.
#[derive(Debug, Clone, Copy)]
pub struct PaddedItem<
    Value,
    PadBlock = char,
    HandleExcess = ExcessHandlingFunction<
        fn(Excess<'_, Value, PadBlock>) -> Result<String, PadError>,
    >,
> where Value: Width, PadBlock: Render, HandleExcess: ExcessHandler<Value, PadBlock> {
    /// Value to be padded.
    pub value: Value,
    /// Block of the pad (expected to have width of 1).
    pub pad_block: PadBlock,
    /// Total width to fulfill.
    pub total_width: usize,
    /// Where to place the pad.
    pub pad_direction: PadDirection,
    /// How to write when the actual width of `value` exceeds `total_width`.
    pub handle_excess: HandleExcess,
}

impl<Value, PadBlock, HandleExcess> PaddedItem<Value, PadBlock, HandleExcess> where
    Value: Width,
    PadBlock: Render,
    HandleExcess: ExcessHandler<Value, PadBlock>,
 {
    /// Whether the value fits into the total width.
    pub open spec fn fits(&self) -> bool {
        fits(self.value.width_spec(), self.total_width as nat)
    }

    /// The number of pad blocks that the value is padded with.
    pub open spec fn pad_width(&self) -> nat {
        pad_count(self.value.width_spec(), self.total_width as nat)
    }

    /// The pad: `pad_width` copies of the pad block.
    pub open spec fn pad(&self) -> Seq<char> {
        repeated(self.pad_block.rendering(), self.pad_width())
    }

    /// The value with its pad.
    pub open spec fn padded(&self) -> Seq<char> {
        padded_text(
            self.value.rendering(),
            self.pad_block.rendering(),
            self.pad_width(),
            self.pad_direction,
        )
    }

    /// Whether the item can be written: its excess policy accepts the value
    /// where it does not fit.
    pub open spec fn renderable(&self) -> bool {
        renderable(&self.value, &self.pad_block, self.total_width, &self.handle_excess)
    }

    /// What writing the item does to a sink, and what it returns.
    pub open spec fn renders(
        &self,
        before: Seq<char>,
        after: Seq<char>,
        result: Result<(), PadError>,
    ) -> bool {
        renders(
            &self.value,
            &self.pad_block,
            self.total_width,
            self.pad_direction,
            &self.handle_excess,
            before,
            after,
            result,
        )
    }

    /// Writes the padded value to the sink.
    ///
    /// A value that fits is written with its pad: before it where the
    /// direction is `Left`, after it where it is `Right`. A value that is wider
    /// than the total width is left to the excess policy.
    pub fn fmt(&self, sink: &mut String) -> (result: Result<(), PadError>)
        requires
            self.renderable(),
        ensures
            self.renders(old(sink)@, final(sink)@, result),
            self.fits() ==> result is Ok,
            self.fits() && self.pad_direction == PadDirection::Left ==> final(sink)@ == old(sink)@
                + self.pad() + self.value.rendering(),
            self.fits() && self.pad_direction == PadDirection::Right ==> final(sink)@ == old(
                sink,
            )@ + self.value.rendering() + self.pad(),
            old(sink)@.is_prefix_of(final(sink)@),
    {
        let result = write_padded(
            &self.value,
            &self.pad_block,
            self.total_width,
            self.pad_direction,
            &self.handle_excess,
            sink,
        );
        proof {
            let head = old(sink)@;
            let body = self.value.rendering();
            let fill = self.pad();
            assert(head + (fill + body) =~= head + fill + body);
            assert(head + (body + fill) =~= head + body + fill);
        }
        result
    }

    /// Gives the padded value as a text of its own, or the error of the
    /// excess policy.
    pub fn render(&self) -> (result: Result<String, PadError>)
        requires
            self.renderable(),
        ensures
            match result {
                Ok(text) => self.renders(Seq::empty(), text@, Ok(())),
                Err(error) => exists|partial: Seq<char>| #[trigger]
                    self.renders(Seq::empty(), partial, Err(error)),
            },
            self.fits() ==> result is Ok && result.unwrap()@ == self.padded(),
    {
        let mut text = String::new();
        let outcome = self.fmt(&mut text);
        proof {
            assert(Seq::<char>::empty() + self.padded() =~= self.padded());
        }
        match outcome {
            Ok(()) => {
                assert(outcome->Ok_0 == ());
                Ok(text)
            },
            Err(error) => {
                assert(self.renders(Seq::empty(), text@, Err(error)));
                Err(error)
            },
        }
    }
}

} // verus!
