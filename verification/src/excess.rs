//! Values that are wider than the width asked for, and what to do with them.

use crate::width::{Render, Width};
use vstd::prelude::*;
use vstd::string::StringExecFns;

verus! {

/// Why a padded value could not be written.
///
/// Both errors come from the excess policy. The sink is a `String`, and
/// writing to it does not fail.
#[derive(Debug, Clone, Copy, PartialEq, Eq, Structural)]
pub enum PadError {
    /// The value is wider than the total width and the policy rejects it.
    Excess,
    /// The value is wider than the total width and cannot be cut down.
    UnsupportedTruncation,
}

/// A value that does not fit, as it is handed to the excess policy.
#[derive(Debug, Clone, Copy)]
pub struct Excess<'a, Value, PadBlock = char> where Value: Width, PadBlock: Render {
    /// The value that was to be padded.
    pub value: &'a Value,
    /// The measured width of the value.
    pub value_width: usize,
    /// The width that was asked for.
    pub total_width: usize,
    /// The block that the pad would have been made of.
    pub pad_block: &'a PadBlock,
}

/// A policy for values that are wider than the total width.
///
/// The policy alone decides what is written for such a value, if anything.
/// Whatever it does, it only adds to the sink.
pub trait ExcessHandler<Value, PadBlock = char> where Value: Width, PadBlock: Render {
    /// Whether the policy can be run on this excess.
    spec fn accepts(&self, excess: Excess<'_, Value, PadBlock>) -> bool;

    /// What the policy may do with this excess: the sink before and after,
    /// and the result.
    spec fn handled(
        &self,
        excess: Excess<'_, Value, PadBlock>,
        before: Seq<char>,
        after: Seq<char>,
        result: Result<(), PadError>,
    ) -> bool;

    /// Deals with a value that does not fit.
    fn handle_excess(&self, excess: Excess<'_, Value, PadBlock>, sink: &mut String) -> (result:
        Result<(), PadError>)
        requires
            self.accepts(excess),
        ensures
            self.handled(excess, old(sink)@, final(sink)@, result),
            old(sink)@.is_prefix_of(final(sink)@),
    ;
}

/// Rejects every value that does not fit, and writes nothing.
#[derive(Debug, Clone, Copy)]
pub struct ForbidExcess;

impl<Value, PadBlock> ExcessHandler<Value, PadBlock> for ForbidExcess where
    Value: Width,
    PadBlock: Render,
 {
    open spec fn accepts(&self, excess: Excess<'_, Value, PadBlock>) -> bool {
        true
    }

    open spec fn handled(
        &self,
        excess: Excess<'_, Value, PadBlock>,
        before: Seq<char>,
        after: Seq<char>,
        result: Result<(), PadError>,
    ) -> bool {
        after == before && result == Err::<(), PadError>(PadError::Excess)
    }

    fn handle_excess(&self, excess: Excess<'_, Value, PadBlock>, sink: &mut String) -> (result:
        Result<(), PadError>) {
        Err(PadError::Excess)
    }
}

/// Writes a value that does not fit as it is, without any pad.
#[derive(Debug, Clone, Copy)]
pub struct IgnoreExcess;

impl<Value, PadBlock> ExcessHandler<Value, PadBlock> for IgnoreExcess where
    Value: Width,
    PadBlock: Render,
 {
    open spec fn accepts(&self, excess: Excess<'_, Value, PadBlock>) -> bool {
        true
    }

    open spec fn handled(
        &self,
        excess: Excess<'_, Value, PadBlock>,
        before: Seq<char>,
        after: Seq<char>,
        result: Result<(), PadError>,
    ) -> bool {
        after == before + excess.value.rendering() && result == Ok::<(), PadError>(())
    }

    fn handle_excess(&self, excess: Excess<'_, Value, PadBlock>, sink: &mut String) -> (result:
        Result<(), PadError>) {
        excess.value.write_to(sink);
        Ok(())
    }
}

/// Cuts a value that does not fit down to the total width, where the value
/// can be cut, and rejects it where it cannot.
#[derive(Debug, Clone, Copy)]
pub struct TruncateExcess;

impl<Value, PadBlock> ExcessHandler<Value, PadBlock> for TruncateExcess where
    Value: Width,
    PadBlock: Render,
 {
    open spec fn accepts(&self, excess: Excess<'_, Value, PadBlock>) -> bool {
        true
    }

    open spec fn handled(
        &self,
        excess: Excess<'_, Value, PadBlock>,
        before: Seq<char>,
        after: Seq<char>,
        result: Result<(), PadError>,
    ) -> bool {
        match excess.value.truncation(excess.total_width as nat) {
            Some(cut) => after == before + cut && result == Ok::<(), PadError>(()),
            None => after == before && result == Err::<(), PadError>(
                PadError::UnsupportedTruncation,
            ),
        }
    }

    fn handle_excess(&self, excess: Excess<'_, Value, PadBlock>, sink: &mut String) -> (result:
        Result<(), PadError>) {
        if excess.value.write_truncated(excess.total_width, sink) {
            Ok(())
        } else {
            Err(PadError::UnsupportedTruncation)
        }
    }
}

/// A policy given as a function: from the excess to the text that is written
/// in place of the padded value, or to an error.
#[derive(Debug, Clone, Copy)]
pub struct ExcessHandlingFunction<F>(pub F);

/// What a policy made of `function` may do: the function has an answer for
/// the excess; a text is added to the sink, an error is handed on with the
/// sink as it was.
pub open spec fn function_handled<Value, PadBlock, F>(
    function: F,
    excess: Excess<'_, Value, PadBlock>,
    before: Seq<char>,
    after: Seq<char>,
    result: Result<(), PadError>,
) -> bool where
    Value: Width,
    PadBlock: Render,
    F: Fn(Excess<'_, Value, PadBlock>) -> Result<String, PadError>,
 {
    exists|answer: Result<String, PadError>| #[trigger]
        call_ensures(function, (excess,), answer) && match answer {
            Ok(text) => after == before + text@ && result == Ok::<(), PadError>(()),
            Err(error) => after == before && result == Err::<(), PadError>(error),
        }
}

impl<Value, PadBlock, F> ExcessHandler<Value, PadBlock> for ExcessHandlingFunction<F> where
    Value: Width,
    PadBlock: Render,
    F: Fn(Excess<'_, Value, PadBlock>) -> Result<String, PadError>,
 {
    open spec fn accepts(&self, excess: Excess<'_, Value, PadBlock>) -> bool {
        call_requires(self.0, (excess,))
    }

    open spec fn handled(
        &self,
        excess: Excess<'_, Value, PadBlock>,
        before: Seq<char>,
        after: Seq<char>,
        result: Result<(), PadError>,
    ) -> bool {
        function_handled(self.0, excess, before, after, result)
    }

    fn handle_excess(&self, excess: Excess<'_, Value, PadBlock>, sink: &mut String) -> (result:
        Result<(), PadError>) {
        let answer: Result<String, PadError> = (self.0)(excess);
        match answer {
            Ok(text) => {
                sink.append(text.as_str());
                Ok(())
            },
            Err(error) => Err(error),
        }
    }
}

/// A policy made of a function accepts what the function's own precondition
/// accepts, and does what the function's own postcondition allows.
pub proof fn lemma_function_policy<Value, PadBlock, F>(
    policy: &ExcessHandlingFunction<F>,
    excess: Excess<'_, Value, PadBlock>,
) where
    Value: Width,
    PadBlock: Render,
    F: Fn(Excess<'_, Value, PadBlock>) -> Result<String, PadError>,

    ensures
        policy.accepts(excess) == call_requires(policy.0, (excess,)),
        forall|before: Seq<char>, after: Seq<char>, result: Result<(), PadError>|
            #[trigger] policy.handled(excess, before, after, result) == function_handled(
                policy.0,
                excess,
                before,
                after,
                result,
            ),
{
}

} // verus!
