//! What a value must offer to be padded: a rendering and a width.

use crate::text::push_char;
use vstd::prelude::*;
use vstd::string::{StrSliceExecFns, StringExecFns};

verus! {

/// Something that can write itself to a text sink.
pub trait Render {
    /// The text that the value is written as.
    spec fn rendering(&self) -> Seq<char>;

    /// Appends the value's rendering to the sink.
    fn write_to(&self, sink: &mut String)
        ensures
            final(sink)@ == old(sink)@ + self.rendering(),
    ;
}

/// A renderable value with a display width.
pub trait Width: Render {
    /// The width of the value, in display columns.
    spec fn width_spec(&self) -> nat;

    /// The rendering cut down to at most `limit` columns, or `None` where the
    /// value has no rendering of bounded width.
    spec fn truncation(&self, limit: nat) -> Option<Seq<char>>;

    /// Measures the value.
    fn width(&self) -> (w: usize)
        ensures
            w == self.width_spec(),
    ;

    /// Appends the rendering cut down to `limit` columns, and tells whether
    /// the value has one. Where it has none, the sink is left alone.
    fn write_truncated(&self, limit: usize, sink: &mut String) -> (done: bool)
        ensures
            done == self.truncation(limit as nat).is_some(),
            done ==> final(sink)@ == old(sink)@ + self.truncation(limit as nat).unwrap(),
            !done ==> final(sink)@ == old(sink)@,
    ;

    /// A truncation is a leading part of the rendering.
    proof fn lemma_truncation_is_prefix(&self, limit: nat)
        ensures
            self.truncation(limit) matches Some(t) ==> t.is_prefix_of(self.rendering()),
    ;
}

/// The leading `limit` characters of a text, or all of it where it is shorter.
pub open spec fn leading(text: Seq<char>, limit: nat) -> Seq<char> {
    if limit < text.len() {
        text.take(limit as int)
    } else {
        text
    }
}

impl<'a> Render for &'a str {
    open spec fn rendering(&self) -> Seq<char> {
        self@
    }

    fn write_to(&self, sink: &mut String) {
        sink.append(*self);
    }
}

impl<'a> Width for &'a str {
    open spec fn width_spec(&self) -> nat {
        self@.len()
    }

    open spec fn truncation(&self, limit: nat) -> Option<Seq<char>> {
        Some(leading(self@, limit))
    }

    fn width(&self) -> (w: usize) {
        self.unicode_len()
    }

    fn write_truncated(&self, limit: usize, sink: &mut String) -> (done: bool) {
        let n: usize = self.unicode_len();
        if limit < n {
            let head = self.substring_char(0, limit);
            sink.append(head);
        } else {
            sink.append(*self);
        }
        true
    }

    proof fn lemma_truncation_is_prefix(&self, limit: nat) {
    }
}

impl Render for String {
    open spec fn rendering(&self) -> Seq<char> {
        self@
    }

    fn write_to(&self, sink: &mut String) {
        sink.append(self.as_str());
    }
}

impl Width for String {
    open spec fn width_spec(&self) -> nat {
        self@.len()
    }

    open spec fn truncation(&self, limit: nat) -> Option<Seq<char>> {
        Some(leading(self@, limit))
    }

    fn width(&self) -> (w: usize) {
        self.as_str().unicode_len()
    }

    fn write_truncated(&self, limit: usize, sink: &mut String) -> (done: bool) {
        self.as_str().write_truncated(limit, sink)
    }

    proof fn lemma_truncation_is_prefix(&self, limit: nat) {
    }
}

impl Render for char {
    open spec fn rendering(&self) -> Seq<char> {
        seq![*self]
    }

    fn write_to(&self, sink: &mut String) {
        push_char(sink, *self);
        assert(old(sink)@.push(*self) =~= old(sink)@ + seq![*self]);
    }
}

impl Width for char {
    open spec fn width_spec(&self) -> nat {
        1
    }

    open spec fn truncation(&self, limit: nat) -> Option<Seq<char>> {
        Some(leading(seq![*self], limit))
    }

    fn width(&self) -> (w: usize) {
        1
    }

    fn write_truncated(&self, limit: usize, sink: &mut String) -> (done: bool) {
        if limit >= 1 {
            self.write_to(sink);
        } else {
            assert(leading(seq![*self], 0) =~= Seq::<char>::empty());
            assert(old(sink)@ + Seq::<char>::empty() =~= old(sink)@);
        }
        true
    }

    proof fn lemma_truncation_is_prefix(&self, limit: nat) {
    }
}

/// A value that is shown whole or not at all: it renders and measures as the
/// value inside it, and has no truncation.
#[derive(Debug, Clone, Copy)]
pub struct Whole<Value>(pub Value) where Value: Width;

impl<Value: Width> Render for Whole<Value> {
    open spec fn rendering(&self) -> Seq<char> {
        self.0.rendering()
    }

    fn write_to(&self, sink: &mut String) {
        self.0.write_to(sink);
    }
}

impl<Value: Width> Width for Whole<Value> {
    open spec fn width_spec(&self) -> nat {
        self.0.width_spec()
    }

    open spec fn truncation(&self, limit: nat) -> Option<Seq<char>> {
        None
    }

    fn width(&self) -> (w: usize) {
        self.0.width()
    }

    fn write_truncated(&self, limit: usize, sink: &mut String) -> (done: bool) {
        false
    }

    proof fn lemma_truncation_is_prefix(&self, limit: nat) {
    }
}

} // verus!
