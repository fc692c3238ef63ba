//! Rendering on a single line: what a value renders to when nothing in it is
//! broken, when the built-in values render that way, and how long that text is.

use crate::combinators::{
    concat_text, total_width, Conditional, Group, Indent, Join, Newline, Sep, Sequence,
};
use crate::context::{spaces, Layout, Text};
use crate::pretty::Pretty;
use crate::size::Width;
use std::rc::Rc;
use vstd::prelude::*;

verus! {

/// Pretty-printable values whose rendering without breaks is known.
///
/// All the built-in values are `Flat`. For them the break mode is only ever
/// changed by a group, so a value in which every group decides to stay
/// unbroken renders as its flat text.
pub trait Flat: Pretty {
    /// The text of this value with nothing in it broken: every separator is
    /// its spaces, what shows only when broken is left out, and what shows
    /// only when unbroken is there. A newline is still a line break.
    ///
    /// The flat text depends on the tab size and on the margin, which matter
    /// to what follows a newline, and on nothing else of a layout.
    spec fn flat(&self, tab_size: nat, margin: nat) -> Text;

    /// Whether every group that is rendered when this value is rendered under
    /// `layout` decides to stay unbroken.
    spec fn fits(&self, layout: Layout) -> bool;

    /// Whether the width of this value counts every character of its flat
    /// text. A newline is not counted, and neither is what a conditional
    /// value shows when unbroken.
    spec fn counted(&self) -> bool;

    /// Rendered unbroken, a value in which every group fits is its flat text.
    proof fn lemma_fits_flat(&self, layout: Layout)
        requires
            !layout.broken,
            self.fits(layout),
        ensures
            self.text(layout) == self.flat(layout.tab_size, layout.margin),
    ;

    /// Without a maximum line length every group fits.
    proof fn lemma_unlimited_fits(&self, layout: Layout)
        requires
            layout.max_line is None,
        ensures
            self.fits(layout),
    ;

    /// The width of a counted value is the length of its flat text.
    proof fn lemma_counted_width(&self, tab_size: nat, margin: nat)
        ensures
            self.counted() ==> self.width() == Width::Columns(self.flat(tab_size, margin).len()),
    ;
}

impl<'a, T: Flat + ?Sized> Flat for &'a T {
    open spec fn flat(&self, tab_size: nat, margin: nat) -> Text {
        (**self).flat(tab_size, margin)
    }

    open spec fn fits(&self, layout: Layout) -> bool {
        (**self).fits(layout)
    }

    open spec fn counted(&self) -> bool {
        (**self).counted()
    }

    proof fn lemma_fits_flat(&self, layout: Layout) {
        (**self).lemma_fits_flat(layout);
    }

    proof fn lemma_unlimited_fits(&self, layout: Layout) {
        (**self).lemma_unlimited_fits(layout);
    }

    proof fn lemma_counted_width(&self, tab_size: nat, margin: nat) {
        (**self).lemma_counted_width(tab_size, margin);
    }
}

impl<'a, T: Flat + ?Sized> Flat for &'a mut T {
    open spec fn flat(&self, tab_size: nat, margin: nat) -> Text {
        (**self).flat(tab_size, margin)
    }

    open spec fn fits(&self, layout: Layout) -> bool {
        (**self).fits(layout)
    }

    open spec fn counted(&self) -> bool {
        (**self).counted()
    }

    proof fn lemma_fits_flat(&self, layout: Layout) {
        (**self).lemma_fits_flat(layout);
    }

    proof fn lemma_unlimited_fits(&self, layout: Layout) {
        (**self).lemma_unlimited_fits(layout);
    }

    proof fn lemma_counted_width(&self, tab_size: nat, margin: nat) {
        (**self).lemma_counted_width(tab_size, margin);
    }
}

impl<T: Flat + ?Sized> Flat for Box<T> {
    open spec fn flat(&self, tab_size: nat, margin: nat) -> Text {
        (**self).flat(tab_size, margin)
    }

    open spec fn fits(&self, layout: Layout) -> bool {
        (**self).fits(layout)
    }

    open spec fn counted(&self) -> bool {
        (**self).counted()
    }

    proof fn lemma_fits_flat(&self, layout: Layout) {
        (**self).lemma_fits_flat(layout);
    }

    proof fn lemma_unlimited_fits(&self, layout: Layout) {
        (**self).lemma_unlimited_fits(layout);
    }

    proof fn lemma_counted_width(&self, tab_size: nat, margin: nat) {
        (**self).lemma_counted_width(tab_size, margin);
    }
}

impl<T: Flat + ?Sized> Flat for Rc<T> {
    open spec fn flat(&self, tab_size: nat, margin: nat) -> Text {
        (**self).flat(tab_size, margin)
    }

    open spec fn fits(&self, layout: Layout) -> bool {
        (**self).fits(layout)
    }

    open spec fn counted(&self) -> bool {
        (**self).counted()
    }

    proof fn lemma_fits_flat(&self, layout: Layout) {
        (**self).lemma_fits_flat(layout);
    }

    proof fn lemma_unlimited_fits(&self, layout: Layout) {
        (**self).lemma_unlimited_fits(layout);
    }

    proof fn lemma_counted_width(&self, tab_size: nat, margin: nat) {
        (**self).lemma_counted_width(tab_size, margin);
    }
}

impl<'a> Flat for &'a str {
    /// A string is its own flat text.
    open spec fn flat(&self, tab_size: nat, margin: nat) -> Text {
        self@
    }

    open spec fn fits(&self, layout: Layout) -> bool {
        true
    }

    open spec fn counted(&self) -> bool {
        true
    }

    proof fn lemma_fits_flat(&self, layout: Layout) {
    }

    proof fn lemma_unlimited_fits(&self, layout: Layout) {
    }

    proof fn lemma_counted_width(&self, tab_size: nat, margin: nat) {
    }
}

impl Flat for String {
    /// A string is its own flat text.
    open spec fn flat(&self, tab_size: nat, margin: nat) -> Text {
        self@
    }

    open spec fn fits(&self, layout: Layout) -> bool {
        true
    }

    open spec fn counted(&self) -> bool {
        true
    }

    proof fn lemma_fits_flat(&self, layout: Layout) {
    }

    proof fn lemma_unlimited_fits(&self, layout: Layout) {
    }

    proof fn lemma_counted_width(&self, tab_size: nat, margin: nat) {
    }
}

impl Flat for Sep {
    /// A separator is its spaces.
    open spec fn flat(&self, tab_size: nat, margin: nat) -> Text {
        spaces(self.0 as nat)
    }

    open spec fn fits(&self, layout: Layout) -> bool {
        true
    }

    open spec fn counted(&self) -> bool {
        true
    }

    proof fn lemma_fits_flat(&self, layout: Layout) {
    }

    proof fn lemma_unlimited_fits(&self, layout: Layout) {
    }

    proof fn lemma_counted_width(&self, tab_size: nat, margin: nat) {
    }
}

impl Flat for Newline {
    /// A newline is a line break even in flat text.
    open spec fn flat(&self, tab_size: nat, margin: nat) -> Text {
        seq!['\n'] + spaces(margin)
    }

    open spec fn fits(&self, layout: Layout) -> bool {
        true
    }

    /// No width counts a line break.
    open spec fn counted(&self) -> bool {
        false
    }

    proof fn lemma_fits_flat(&self, layout: Layout) {
    }

    proof fn lemma_unlimited_fits(&self, layout: Layout) {
    }

    proof fn lemma_counted_width(&self, tab_size: nat, margin: nat) {
    }
}

impl<T: Flat> Flat for Group<T> {
    /// The flat text of the contents.
    open spec fn flat(&self, tab_size: nat, margin: nat) -> Text {
        self.content().flat(tab_size, margin)
    }

    /// The group itself stays unbroken, and so does every group in its
    /// contents. The break mode around the group plays no part.
    open spec fn fits(&self, layout: Layout) -> bool {
        &&& !layout.breaks(self.measured())
        &&& self.content().fits(layout.with_broken(false))
    }

    /// The group keeps the width of its contents, which are counted.
    open spec fn counted(&self) -> bool {
        &&& self.well_formed()
        &&& self.content().counted()
    }

    proof fn lemma_fits_flat(&self, layout: Layout) {
        self.content().lemma_fits_flat(layout.with_broken(false));
    }

    proof fn lemma_unlimited_fits(&self, layout: Layout) {
        self.content().lemma_unlimited_fits(layout.with_broken(false));
    }

    proof fn lemma_counted_width(&self, tab_size: nat, margin: nat) {
        self.content().lemma_counted_width(tab_size, margin);
    }
}

impl<T: Flat> Flat for Indent<T> {
    /// The flat text of the contents, with the margin one level deeper.
    open spec fn flat(&self, tab_size: nat, margin: nat) -> Text {
        self.0.flat(tab_size, margin + tab_size)
    }

    open spec fn fits(&self, layout: Layout) -> bool {
        self.0.fits(layout.indented())
    }

    open spec fn counted(&self) -> bool {
        self.0.counted()
    }

    proof fn lemma_fits_flat(&self, layout: Layout) {
        self.0.lemma_fits_flat(layout.indented());
    }

    proof fn lemma_unlimited_fits(&self, layout: Layout) {
        self.0.lemma_unlimited_fits(layout.indented());
    }

    proof fn lemma_counted_width(&self, tab_size: nat, margin: nat) {
        self.0.lemma_counted_width(tab_size, margin + tab_size);
    }
}

impl<T: Flat, U: Flat> Flat for Join<T, U> {
    /// The flat text of the first value followed by that of the second.
    open spec fn flat(&self, tab_size: nat, margin: nat) -> Text {
        self.0.flat(tab_size, margin) + self.1.flat(tab_size, margin)
    }

    open spec fn fits(&self, layout: Layout) -> bool {
        &&& self.0.fits(layout)
        &&& self.1.fits(layout)
    }

    open spec fn counted(&self) -> bool {
        &&& self.0.counted()
        &&& self.1.counted()
    }

    proof fn lemma_fits_flat(&self, layout: Layout) {
        self.0.lemma_fits_flat(layout);
        self.1.lemma_fits_flat(layout);
    }

    proof fn lemma_unlimited_fits(&self, layout: Layout) {
        self.0.lemma_unlimited_fits(layout);
        self.1.lemma_unlimited_fits(layout);
    }

    proof fn lemma_counted_width(&self, tab_size: nat, margin: nat) {
        self.0.lemma_counted_width(tab_size, margin);
        self.1.lemma_counted_width(tab_size, margin);
    }
}

/// The flat texts of `items`, one after the other.
pub open spec fn concat_flat<T: Flat>(items: Seq<T>, tab_size: nat, margin: nat) -> Text
    decreases items.len(),
{
    if items.len() == 0 {
        Seq::empty()
    } else {
        concat_flat(items.drop_last(), tab_size, margin) + items.last().flat(tab_size, margin)
    }
}

/// Rendered unbroken, items in which every group fits are their flat texts.
proof fn lemma_concat_fits_flat<T: Flat>(items: Seq<T>, layout: Layout)
    requires
        !layout.broken,
        forall|i: int| 0 <= i < items.len() ==> (#[trigger] items[i]).fits(layout),
    ensures
        concat_text(items, layout) == concat_flat(items, layout.tab_size, layout.margin),
    decreases items.len(),
{
    if items.len() > 0 {
        let front = items.drop_last();
        assert forall|i: int| 0 <= i < front.len() implies (#[trigger] front[i]).fits(layout) by {
            assert(front[i] == items[i]);
        }
        lemma_concat_fits_flat(front, layout);
        items.last().lemma_fits_flat(layout);
    }
}

/// The width of counted items is the length of their flat texts.
proof fn lemma_concat_counted_width<T: Flat>(items: Seq<T>, tab_size: nat, margin: nat)
    requires
        forall|i: int| 0 <= i < items.len() ==> (#[trigger] items[i]).counted(),
    ensures
        total_width(items) == Width::Columns(concat_flat(items, tab_size, margin).len()),
    decreases items.len(),
{
    if items.len() > 0 {
        let front = items.drop_last();
        assert forall|i: int| 0 <= i < front.len() implies (#[trigger] front[i]).counted() by {
            assert(front[i] == items[i]);
        }
        lemma_concat_counted_width(front, tab_size, margin);
        items.last().lemma_counted_width(tab_size, margin);
    }
}

impl<T: Flat> Flat for Sequence<T> {
    /// The flat texts of the items in order.
    open spec fn flat(&self, tab_size: nat, margin: nat) -> Text {
        concat_flat(self.0@, tab_size, margin)
    }

    open spec fn fits(&self, layout: Layout) -> bool {
        forall|i: int| 0 <= i < self.0@.len() ==> (#[trigger] self.0@[i]).fits(layout)
    }

    open spec fn counted(&self) -> bool {
        forall|i: int| 0 <= i < self.0@.len() ==> (#[trigger] self.0@[i]).counted()
    }

    proof fn lemma_fits_flat(&self, layout: Layout) {
        lemma_concat_fits_flat(self.0@, layout);
    }

    proof fn lemma_unlimited_fits(&self, layout: Layout) {
        assert forall|i: int| 0 <= i < self.0@.len() implies (#[trigger] self.0@[i]).fits(layout) by {
            self.0@[i].lemma_unlimited_fits(layout);
        }
    }

    proof fn lemma_counted_width(&self, tab_size: nat, margin: nat) {
        if self.counted() {
            lemma_concat_counted_width(self.0@, tab_size, margin);
        }
    }
}

impl<T: Flat> Flat for Conditional<T> {
    /// What shows only when broken is left out of the flat text.
    open spec fn flat(&self, tab_size: nat, margin: nat) -> Text {
        if self.shown(false) {
            self.content().flat(tab_size, margin)
        } else {
            Seq::empty()
        }
    }

    open spec fn fits(&self, layout: Layout) -> bool {
        self.shown(layout.broken) ==> self.content().fits(layout)
    }

    /// A conditional value has no width, so what it shows when unbroken has
    /// to be counted and of no width.
    open spec fn counted(&self) -> bool {
        self.shown(false) ==> self.content().counted() && self.content().width() == Width::Columns(0)
    }

    proof fn lemma_fits_flat(&self, layout: Layout) {
        if self.shown(false) {
            self.content().lemma_fits_flat(layout);
        }
    }

    proof fn lemma_unlimited_fits(&self, layout: Layout) {
        self.content().lemma_unlimited_fits(layout);
    }

    proof fn lemma_counted_width(&self, tab_size: nat, margin: nat) {
        if self.shown(false) {
            self.content().lemma_counted_width(tab_size, margin);
        }
    }
}

impl<T: Flat> Flat for Option<T> {
    /// The flat text of the contents, or nothing if there are none.
    open spec fn flat(&self, tab_size: nat, margin: nat) -> Text {
        match *self {
            Some(inner) => inner.flat(tab_size, margin),
            None => Seq::empty(),
        }
    }

    open spec fn fits(&self, layout: Layout) -> bool {
        match *self {
            Some(inner) => inner.fits(layout),
            None => true,
        }
    }

    open spec fn counted(&self) -> bool {
        match *self {
            Some(inner) => inner.counted(),
            None => true,
        }
    }

    proof fn lemma_fits_flat(&self, layout: Layout) {
        if let Some(inner) = *self {
            inner.lemma_fits_flat(layout);
        }
    }

    proof fn lemma_unlimited_fits(&self, layout: Layout) {
        if let Some(inner) = *self {
            inner.lemma_unlimited_fits(layout);
        }
    }

    proof fn lemma_counted_width(&self, tab_size: nat, margin: nat) {
        if let Some(inner) = *self {
            inner.lemma_counted_width(tab_size, margin);
        }
    }
}

} // verus!
