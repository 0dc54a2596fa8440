//! Padding of a single value to a fixed display width.
//!
//! A padded value couples a value with the block that its pad is made of, the
//! total width to fill, the side on which the pad goes, and a policy for a
//! value that is wider than the total width. Writing it appends to a text
//! sink, a `String`: a value that fits is written with `total_width - width`
//! pad blocks before or after it, and a value that does not fit is handed to
//! the policy, which alone decides what is written.
//!
//! Widths are measured by the value itself, through [`Width`]. The pad block
//! is expected to be one column wide; the pad always holds
//! `total_width - width` blocks, so with a block of another width the padded
//! text is as wide as the value and those blocks together, not `total_width`.
//!
//! The module [`laws`] states what holds of every padded value.

pub mod excess;
pub mod item;
pub mod laws;
pub mod pad;
pub mod text;
pub mod value;
pub mod width;

pub use excess::{
    Excess, ExcessHandler, ExcessHandlingFunction, ForbidExcess, IgnoreExcess, PadError,
    TruncateExcess,
};
pub use item::PaddedItem;
pub use pad::PadDirection;
pub use value::PaddedValue;
pub use width::{Render, Whole, Width};
