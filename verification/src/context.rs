//! The rendering environment that is threaded through a tree of pretty-printable
//! values while it is rendered.

use crate::size::Width;
use vstd::prelude::*;

verus! {

/// Rendered text: a sequence of characters.
pub type Text = Seq<char>;

/// A run of `count` space characters.
pub open spec fn spaces(count: nat) -> Text {
    Seq::new(count, |i: int| ' ')
}

/// The part of a rendering environment that decides what is written: the
/// configuration and the current indentation and break mode, without the
/// destination.
///
/// This is the mathematical view of a [`Context`]. It holds the margin beside
/// the indentation level, so that going one level deeper is an addition.
pub struct Layout {
    /// The maximum desired line length, or `None` if lines may be of unlimited length.
    pub max_line: Option<usize>,
    /// The number of spaces of a single level of indentation.
    pub tab_size: nat,
    /// The current number of tab stops inserted after each line break.
    pub indent_level: nat,
    /// The number of spaces that follow a line break: `tab_size` for each
    /// level of indentation.
    pub margin: nat,
    /// Whether the environment has been broken across multiple lines.
    pub broken: bool,
}

impl Layout {
    /// The layout in which a value of the given intrinsic width is rendered at
    /// the top level: no indentation, and broken exactly if the width exceeds
    /// the maximum line length.
    pub open spec fn root(width: Width, max_line: Option<usize>, tab_size: usize) -> Layout {
        Layout {
            max_line,
            tab_size: tab_size as nat,
            indent_level: 0,
            margin: 0,
            broken: width.exceeds(max_line),
        }
    }

    /// Whether the margin of this layout is what its tab size and its
    /// indentation level say: the one times the other. The layout at the top
    /// level is well formed, every layout reached from a well-formed one is,
    /// and so is the view of every context.
    pub open spec fn well_formed(self) -> bool {
        self.margin == self.tab_size * self.indent_level
    }

    /// This layout with the given break mode.
    pub open spec fn with_broken(self, broken: bool) -> Layout {
        Layout { broken, ..self }
    }

    /// This layout one indentation level deeper: the margin grows by the tab
    /// size.
    pub open spec fn indented(self) -> Layout {
        Layout {
            indent_level: self.indent_level + 1,
            margin: self.margin + self.tab_size,
            ..self
        }
    }

    /// What a line break renders to in this layout: a newline character
    /// followed by the margin in spaces.
    pub open spec fn line_break(self) -> Text {
        seq!['\n'] + spaces(self.margin)
    }

    /// The break mode that a group of the given intrinsic width chooses for
    /// its contents in this layout: broken exactly if the width together with
    /// the current margin exceeds the maximum line length.
    ///
    /// Only the margin is added: text already written on the current line is
    /// not taken into account.
    pub open spec fn breaks(self, width: Width) -> bool {
        width.plus(Width::Columns(self.margin)).exceeds(self.max_line)
    }

    /// The layout that a group of the given intrinsic width hands to its
    /// contents. The break mode that the group was given plays no part in it.
    pub open spec fn grouped(self, width: Width) -> Layout {
        self.with_broken(self.breaks(width))
    }
}

/// The rendering environment: where to write, and under which layout.
///
/// You only need to use this struct if you are implementing your own `Pretty`
/// types. To render an existing `Pretty` type with custom line length and tab
/// size parameters, use the `max_line` and `tab_size` arguments of the
/// [`write`](crate::write) or [`to_string`](crate::to_string) functions.
pub struct Context<'a> {
    /// The maximum desired line length, or `None` if lines may be of unlimited length.
    pub max_line: Option<usize>,
    /// The desired number of spaces to use for a single level of indentation.
    pub tab_size: usize,
    /// The current number of tab stops to be inserted before each new line.
    pub indent_level: usize,
    /// Whether or not the environment has been broken across multiple lines
    /// because its contents were too large.
    pub broken: bool,
    /// The text that is being written.
    pub writer: &'a mut String,
}

impl<'a> View for Context<'a> {
    type V = Layout;

    open spec fn view(&self) -> Layout {
        Layout {
            max_line: self.max_line,
            tab_size: self.tab_size as nat,
            indent_level: self.indent_level as nat,
            margin: (self.tab_size * self.indent_level) as nat,
            broken: self.broken,
        }
    }
}

impl<'a> Context<'a> {
    /// The layout of a context is well formed: its margin is its tab size
    /// times its indentation level.
    pub proof fn lemma_view_is_well_formed(&self)
        ensures
            self@.well_formed(),
    {
    }

    /// A second handle on the same environment, for a shorter time.
    ///
    /// The new context has the layout of this one and writes to the same
    /// destination. Once it is gone, this context is usable again: its layout
    /// is unchanged, and its destination holds whatever was written through
    /// the new context.
    pub fn reborrow<'b>(&'b mut self) -> (shorter: Context<'b>)
        ensures
            shorter@ == old(self)@,
            *shorter.writer == *old(self).writer,
            final(self)@ == old(self)@,
            *final(self).writer == *final(shorter.writer),
            *final(final(self).writer) == *final(old(self).writer),
    {
        Context {
            max_line: self.max_line,
            tab_size: self.tab_size,
            indent_level: self.indent_level,
            broken: self.broken,
            writer: &mut *self.writer,
        }
    }
}

} // verus!
