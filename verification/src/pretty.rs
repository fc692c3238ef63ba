//! The `Pretty` trait, and its implementations for text and for pointers to
//! pretty-printable values.

use crate::context::{Context, Layout, Text};
use crate::size::{Size, Width};
use std::rc::Rc;
use vstd::prelude::*;
use vstd::string::*;

verus! {

/// Types which can be pretty-printed.
///
/// Strings implement `Pretty`, as do a number of useful built-in composable
/// wrapper types. As such, you usually don't need to implement it for your own
/// types, although you can if necessary.
///
/// A pretty-printable value is described by two mathematical functions: its
/// intrinsic [`width`](Pretty::width), and the [`text`](Pretty::text) that it
/// renders to under a given layout. The two executable methods compute the
/// first and append the second to the destination. Neither changes the value,
/// and both recurse along it: the call stack grows with the depth of the tree.
pub trait Pretty {
    /// The intrinsic width of this value: the columns it takes if nothing
    /// inside it is broken, or `Unbounded` if it cannot be displayed on a
    /// single line.
    spec fn width(&self) -> Width;

    /// The text that this value renders to under the given layout.
    spec fn text(&self, layout: Layout) -> Text;

    /// Whether the intrinsic width can be computed in machine integers: for
    /// the built-in values, whether every sum that [`size`](Pretty::size)
    /// adds up is a [representable](Width::representable) width.
    spec fn measurable(&self) -> bool;

    /// Whether this value can be rendered under the given layout in machine
    /// integers: for the built-in values, whether the indentation level stays
    /// below `usize::MAX` wherever something is indented.
    spec fn printable(&self, layout: Layout) -> bool;

    /// Calculate the intrinsic size of this value, if it were to be displayed
    /// on a single line.
    fn size(&self) -> (size: Size)
        requires
            self.measurable(),
        ensures
            size@ == self.width(),
    ;

    /// Render this value in a given context: append its text under the
    /// context's layout to the context's destination.
    fn pretty_write(&self, context: Context)
        requires
            self.printable(context@),
        ensures
            final(context.writer)@ == old(context.writer)@ + self.text(context@),
    ;
}

impl<'a, T: Pretty + ?Sized> Pretty for &'a T {
    open spec fn width(&self) -> Width {
        (**self).width()
    }

    open spec fn text(&self, layout: Layout) -> Text {
        (**self).text(layout)
    }

    open spec fn measurable(&self) -> bool {
        (**self).measurable()
    }

    open spec fn printable(&self, layout: Layout) -> bool {
        (**self).printable(layout)
    }

    fn size(&self) -> (size: Size) {
        (**self).size()
    }

    fn pretty_write(&self, context: Context) {
        (**self).pretty_write(context)
    }
}

impl<'a, T: Pretty + ?Sized> Pretty for &'a mut T {
    open spec fn width(&self) -> Width {
        (**self).width()
    }

    open spec fn text(&self, layout: Layout) -> Text {
        (**self).text(layout)
    }

    open spec fn measurable(&self) -> bool {
        (**self).measurable()
    }

    open spec fn printable(&self, layout: Layout) -> bool {
        (**self).printable(layout)
    }

    fn size(&self) -> (size: Size) {
        (**self).size()
    }

    fn pretty_write(&self, context: Context) {
        (**self).pretty_write(context)
    }
}

impl<T: Pretty + ?Sized> Pretty for Box<T> {
    open spec fn width(&self) -> Width {
        (**self).width()
    }

    open spec fn text(&self, layout: Layout) -> Text {
        (**self).text(layout)
    }

    open spec fn measurable(&self) -> bool {
        (**self).measurable()
    }

    open spec fn printable(&self, layout: Layout) -> bool {
        (**self).printable(layout)
    }

    fn size(&self) -> (size: Size) {
        (**self).size()
    }

    fn pretty_write(&self, context: Context) {
        (**self).pretty_write(context)
    }
}

impl<T: Pretty + ?Sized> Pretty for Rc<T> {
    open spec fn width(&self) -> Width {
        (**self).width()
    }

    open spec fn text(&self, layout: Layout) -> Text {
        (**self).text(layout)
    }

    open spec fn measurable(&self) -> bool {
        (**self).measurable()
    }

    open spec fn printable(&self, layout: Layout) -> bool {
        (**self).printable(layout)
    }

    fn size(&self) -> (size: Size) {
        (**self).size()
    }

    fn pretty_write(&self, context: Context) {
        (**self).pretty_write(context)
    }
}

impl<'a> Pretty for &'a str {
    /// A string is as wide as it has characters: Unicode scalar values are
    /// counted, not bytes, and a wide character counts as one.
    open spec fn width(&self) -> Width {
        Width::Columns(self@.len())
    }

    /// A string renders as itself under every layout.
    open spec fn text(&self, layout: Layout) -> Text {
        self@
    }

    open spec fn measurable(&self) -> bool {
        true
    }

    open spec fn printable(&self, layout: Layout) -> bool {
        true
    }

    fn size(&self) -> (size: Size) {
        Size::Size(self.unicode_len())
    }

    fn pretty_write(&self, context: Context) {
        context.writer.append(self);
    }
}

impl Pretty for String {
    /// A string is as wide as it has characters: Unicode scalar values are
    /// counted, not bytes, and a wide character counts as one.
    open spec fn width(&self) -> Width {
        Width::Columns(self@.len())
    }

    /// A string renders as itself under every layout.
    open spec fn text(&self, layout: Layout) -> Text {
        self@
    }

    open spec fn measurable(&self) -> bool {
        true
    }

    open spec fn printable(&self, layout: Layout) -> bool {
        true
    }

    fn size(&self) -> (size: Size) {
        Size::Size(self.as_str().unicode_len())
    }

    fn pretty_write(&self, context: Context) {
        context.writer.append(self.as_str());
    }
}

} // verus!
