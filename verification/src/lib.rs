//! A trait-based library for producing pretty debug output. It is intended to
//! make it easy to render large tree-like structures (such as program syntax
//! trees) in such a way that long items are broken across multiple lines and
//! indented.
//!
//! The core of this crate is the [`Pretty`] trait, which represents types that
//! can be pretty-printed. The crate provides a number of built-in types
//! implementing `Pretty`, which can be combined to implement a wide variety of
//! formatting and layout strategies.
//!
//! Rendering has two phases. A value is measured once: its intrinsic [`Size`]
//! says how many columns it takes if nothing in it is broken. Then it is
//! rendered from the top down under a [`Context`]: a [`Group`] whose size
//! together with the current margin exceeds the maximum line length renders
//! its contents broken, and every other group keeps its contents on one line.
//!
//! # Contracts
//!
//! Every pretty-printable value has a mathematical [`Width`] and, for each
//! [`Layout`], a [`Text`]. The contracts of this crate say that
//! [`Pretty::size`] computes the first and that [`Pretty::pretty_write`]
//! appends the second, and [`rendering`] is what [`to_string`] returns. What
//! holds of these in general is proved in [`laws`] and [`flat`].
//!
//! Sizes and indentation levels are machine integers. A value is
//! [`renderable`] if measuring and rendering it stays within them, which is
//! what the functions that render ask of their callers.
//!
//! # Examples
//!
//! ```text
//! let list = Group::new(
//!     "[".join(block(
//!         delimited(&",".join(Sep(1)), vec!["1", "2", "3"])
//!             .join(Conditional::OnlyBroken(",")),
//!     ))
//!     .join("]"),
//! );
//! to_string(&list, Some(40), 4)      // [1, 2, 3]
//! to_string(&list, Some(8), 4)       // [
//!                                    //     1,
//!                                    //     2,
//!                                    //     3,
//!                                    // ]
//! ```

pub mod builders;
pub mod combinators;
pub mod context;
pub mod flat;
pub mod laws;
pub mod pretty;
pub mod size;

pub use builders::{block, delimited};
pub use combinators::{Conditional, Group, Indent, Join, JoinExt, Newline, Sep, Sequence};
pub use context::{Context, Layout, Text};
pub use flat::Flat;
pub use pretty::Pretty;
pub use size::{Size, Width};
use vstd::prelude::*;
use vstd::string::*;

verus! {

/// The text that `content` renders to as a whole, for a maximum line length
/// and a tab size.
///
/// The content is measured once. At the top level there is no indentation, and
/// the content is broken exactly if its intrinsic width exceeds the maximum
/// line length.
pub open spec fn rendering<T: Pretty>(content: T, max_line: Option<usize>, tab_size: usize) -> Text {
    content.text(Layout::root(content.width(), max_line, tab_size))
}

/// Whether `content` can be rendered as a whole in machine integers: it can be
/// measured, and it can be rendered under the layout at the top level.
pub open spec fn renderable<T: Pretty>(
    content: T,
    max_line: Option<usize>,
    tab_size: usize,
) -> bool {
    &&& content.measurable()
    &&& content.printable(Layout::root(content.width(), max_line, tab_size))
}

/// Render a pretty-printable value to a text destination: its rendering is
/// appended to what the destination holds.
///
/// This is the most general way to render a `Pretty` type.
pub fn write<T: Pretty>(
    writer: &mut String,
    content: &T,
    max_line: Option<usize>,
    tab_size: usize,
)
    requires
        renderable(*content, max_line, tab_size),
    ensures
        final(writer)@ == old(writer)@ + rendering(*content, max_line, tab_size),
{
    let size = content.size();
    let context = Context {
        max_line,
        tab_size,
        indent_level: 0,
        broken: size.exceeds(max_line),
        writer,
    };
    content.pretty_write(context)
}

/// Render a pretty-printable value to an owned string and return it.
pub fn to_string<T: Pretty>(content: &T, max_line: Option<usize>, tab_size: usize) -> (text:
    String)
    requires
        renderable(*content, max_line, tab_size),
    ensures
        text@ == rendering(*content, max_line, tab_size),
{
    let mut result = String::new();
    write(&mut result, content, max_line, tab_size);
    result
}

/// The maximum line length of simple output.
pub const SIMPLE_MAX_LINE: usize = 80;

/// The tab size of simple output.
pub const SIMPLE_TAB_SIZE: usize = 2;

/// Render a pretty-printable value as a line of simple output: under a
/// maximum line length of 80 characters and a tab size of 2 spaces, and
/// followed by a line break.
pub fn simple_line<T: Pretty>(content: &T) -> (line: String)
    requires
        renderable(*content, Some(SIMPLE_MAX_LINE), SIMPLE_TAB_SIZE),
    ensures
        line@ == rendering(*content, Some(SIMPLE_MAX_LINE), SIMPLE_TAB_SIZE) + seq!['\n'],
{
    proof {
        reveal_strlit("\n");
    }
    let mut line = to_string(content, Some(SIMPLE_MAX_LINE), SIMPLE_TAB_SIZE);
    line.append("\n");
    line
}

} // verus!
