//! The built-in pretty-printable values: separators, line breaks, and the
//! wrappers that group, indent, concatenate and conditionally show other values.

use crate::context::{spaces, Context, Layout, Text};
use crate::pretty::Pretty;
use crate::size::{Size, Width};
use vstd::pervasive::cloned;
use vstd::prelude::*;
use vstd::string::*;

verus! {

/// Appends `count` spaces to the destination.
fn write_spaces(writer: &mut String, count: usize)
    ensures
        final(writer)@ == old(writer)@ + spaces(count as nat),
{
    proof {
        reveal_strlit(" ");
    }
    let mut written: usize = 0;
    while written < count
        invariant
            written <= count,
            " "@ == seq![' '],
            writer@ == old(writer)@ + spaces(written as nat),
        decreases count - written,
    {
        writer.append(" ");
        written += 1;
    }
}

/// Appends a line break to the destination of `context`: a newline and the
/// margin of the context's layout, one indentation level after the other.
fn write_line_break(context: Context)
    ensures
        final(context.writer)@ == old(context.writer)@ + context@.line_break(),
{
    proof {
        reveal_strlit("\n");
    }
    let ghost before = context.writer@;
    let ghost after = *final(context.writer);
    let ghost layout = context@;
    context.writer.append("\n");
    let mut level: usize = 0;
    while level < context.indent_level
        invariant
            level <= context.indent_level,
            context@ == layout,
            context.writer@ == before + seq!['\n'] + spaces(layout.tab_size * level as nat),
            *final(context.writer) == after,
        decreases context.indent_level - level,
    {
        write_spaces(context.writer, context.tab_size);
        assert(layout.tab_size * (level + 1) as nat == layout.tab_size * level as nat
            + layout.tab_size) by (nonlinear_arith);
        level += 1;
    }
}

/// Whether a group of the given size renders its contents broken in the
/// layout of `context`: whether the size together with the margin exceeds the
/// maximum line length.
///
/// The sum is not computed. A size within the maximum is exceeded together
/// with the margin exactly if the margin is more than what is left of the
/// line, and a margin beyond `usize::MAX` is more than whatever is left.
fn group_breaks(size: Size, context: &Context) -> (broken: bool)
    ensures
        broken == context@.breaks(size@),
{
    match (size, context.max_line) {
        (_, None) => false,
        (Size::MultiLine, Some(_)) => true,
        (Size::Size(columns), Some(max)) => {
            if columns > max {
                true
            } else {
                match context.tab_size.checked_mul(context.indent_level) {
                    Some(margin) => margin > max - columns,
                    None => true,
                }
            }
        },
    }
}

/// A whitespace separator, rendered as a space if unbroken or a newline if broken.
///
/// The most common uses of `Sep` are `Sep(1)`, which renders as a single space
/// or a newline, and `Sep(0)`, which introduces a point where a newline will be
/// inserted if the content is broken.
#[derive(Clone, Copy, Debug)]
pub struct Sep(pub usize);

impl Pretty for Sep {
    /// A separator is as wide as the spaces it stands for when unbroken.
    open spec fn width(&self) -> Width {
        Width::Columns(self.0 as nat)
    }

    /// Broken, a separator is a line break; unbroken, it is its spaces and no
    /// line break.
    open spec fn text(&self, layout: Layout) -> Text {
        if layout.broken {
            layout.line_break()
        } else {
            spaces(self.0 as nat)
        }
    }

    open spec fn measurable(&self) -> bool {
        true
    }

    open spec fn printable(&self, layout: Layout) -> bool {
        true
    }

    fn size(&self) -> (size: Size) {
        Size::Size(self.0)
    }

    fn pretty_write(&self, context: Context) {
        if context.broken {
            write_line_break(context);
        } else {
            write_spaces(context.writer, self.0);
        }
    }
}

/// An unconditional newline.
///
/// Always causes its environment to break.
#[derive(Clone, Copy, Debug)]
pub struct Newline;

impl Pretty for Newline {
    /// A newline cannot be displayed on a single line.
    open spec fn width(&self) -> Width {
        Width::Unbounded
    }

    /// A newline is a line break whatever the break mode is.
    open spec fn text(&self, layout: Layout) -> Text {
        layout.line_break()
    }

    open spec fn measurable(&self) -> bool {
        true
    }

    open spec fn printable(&self, layout: Layout) -> bool {
        true
    }

    fn size(&self) -> (size: Size) {
        Size::MultiLine
    }

    fn pretty_write(&self, context: Context) {
        write_line_break(context);
    }
}

/// A wrapper which groups its contents so they will fit onto one line if
/// possible, even if their environment has been broken across multiple lines.
///
/// A group measures its contents once, when it is made, and keeps that width.
#[derive(Copy, Debug)]
pub struct Group<T> {
    size: Size,
    content: T,
}

impl<T: Clone> Clone for Group<T> {
    /// A group of a clone of the contents, with the width that this group keeps.
    fn clone(&self) -> (copy: Self)
        ensures
            cloned(self.content(), copy.content()),
            copy.measured() == self.measured(),
    {
        Group { size: self.size, content: self.content.clone() }
    }
}

impl<T> Group<T> {
    /// The contents of the group.
    pub closed spec fn content(&self) -> T {
        self.content
    }

    /// The width that the group keeps for its contents.
    pub closed spec fn measured(&self) -> Width {
        self.size@
    }
}

impl<T: Pretty> Group<T> {
    /// Whether the width that the group keeps is the width of its contents.
    /// Every group made by [`Group::new`] is well formed.
    pub open spec fn well_formed(&self) -> bool {
        self.measured() == self.content().width()
    }

    /// Groups `content`, which is measured here and never again.
    pub fn new(content: T) -> (group: Self)
        requires
            content.measurable(),
        ensures
            group.content() == content,
            group.well_formed(),
    {
        Group { size: content.size(), content }
    }
}

impl<T: Pretty> Pretty for Group<T> {
    /// A group is as wide as its contents were when it was made.
    open spec fn width(&self) -> Width {
        self.measured()
    }

    /// A group renders its contents broken if its width together with the
    /// margin exceeds the maximum line length, and unbroken otherwise. The
    /// break mode of the layout around the group plays no part.
    open spec fn text(&self, layout: Layout) -> Text {
        self.content().text(layout.grouped(self.measured()))
    }

    open spec fn measurable(&self) -> bool {
        true
    }

    open spec fn printable(&self, layout: Layout) -> bool {
        self.content().printable(layout.grouped(self.measured()))
    }

    fn size(&self) -> (size: Size) {
        self.size
    }

    fn pretty_write(&self, mut context: Context) {
        context.broken = group_breaks(self.size, &context);
        self.content.pretty_write(context)
    }
}

/// A wrapper which indents any newlines inside its contents.
#[derive(Copy, Debug)]
pub struct Indent<T>(pub T);

impl<T: Clone> Clone for Indent<T> {
    /// An indentation of a clone of the contents.
    fn clone(&self) -> (copy: Self)
        ensures
            cloned(self.0, copy.0),
    {
        Indent(self.0.clone())
    }
}

impl<T: Pretty> Pretty for Indent<T> {
    /// Indentation does not change the width on a single line.
    open spec fn width(&self) -> Width {
        self.0.width()
    }

    /// The contents, rendered one indentation level deeper.
    open spec fn text(&self, layout: Layout) -> Text {
        self.0.text(layout.indented())
    }

    open spec fn measurable(&self) -> bool {
        self.0.measurable()
    }

    open spec fn printable(&self, layout: Layout) -> bool {
        &&& layout.indent_level < usize::MAX
        &&& self.0.printable(layout.indented())
    }

    fn size(&self) -> (size: Size) {
        self.0.size()
    }

    fn pretty_write(&self, mut context: Context) {
        assert(context.tab_size * (context.indent_level + 1) == context.tab_size
            * context.indent_level + context.tab_size) by (nonlinear_arith);
        context.indent_level += 1;
        self.0.pretty_write(context)
    }
}

/// A wrapper which concatenates two pretty-printable values.
///
/// This struct is created by the [`join`](JoinExt::join) method from the
/// `JoinExt` trait.
#[derive(Copy, Debug)]
pub struct Join<T, U>(pub T, pub U);

impl<T: Clone, U: Clone> Clone for Join<T, U> {
    /// A join of clones of the two values.
    fn clone(&self) -> (copy: Self)
        ensures
            cloned(self.0, copy.0),
            cloned(self.1, copy.1),
    {
        Join(self.0.clone(), self.1.clone())
    }
}

impl<T: Pretty, U: Pretty> Pretty for Join<T, U> {
    /// The sum of the two widths.
    open spec fn width(&self) -> Width {
        self.0.width().plus(self.1.width())
    }

    /// The text of the first value followed by the text of the second, both
    /// under the layout that the join was given.
    open spec fn text(&self, layout: Layout) -> Text {
        self.0.text(layout) + self.1.text(layout)
    }

    open spec fn measurable(&self) -> bool {
        &&& self.0.measurable()
        &&& self.1.measurable()
        &&& self.width().representable()
    }

    open spec fn printable(&self, layout: Layout) -> bool {
        &&& self.0.printable(layout)
        &&& self.1.printable(layout)
    }

    fn size(&self) -> (size: Size) {
        self.0.size() + self.1.size()
    }

    fn pretty_write(&self, mut context: Context) {
        self.0.pretty_write(context.reborrow());
        self.1.pretty_write(context);
    }
}

/// Allows `join` to be called on any `Pretty` type.
///
/// This trait is automatically implemented for all `Pretty` types. It should
/// never be implemented manually.
pub trait JoinExt: Sized {
    /// Concatenate two pretty-printable values. This directly displays one
    /// after the other, with no separation or line breaks. For separation, use
    /// the [`Sep`] type.
    fn join<U>(self, other: U) -> (joined: Join<Self, U>)
        ensures
            joined.0 == self,
            joined.1 == other,
    ;
}

impl<T: Pretty> JoinExt for T {
    fn join<U>(self, other: U) -> (joined: Join<Self, U>) {
        Join(self, other)
    }
}

/// The sum of the widths of `items`, added up from the first to the last.
pub open spec fn total_width<T: Pretty>(items: Seq<T>) -> Width
    decreases items.len(),
{
    if items.len() == 0 {
        Width::Columns(0)
    } else {
        total_width(items.drop_last()).plus(items.last().width())
    }
}

/// The texts of `items` under `layout`, one after the other.
pub open spec fn concat_text<T: Pretty>(items: Seq<T>, layout: Layout) -> Seq<char>
    decreases items.len(),
{
    if items.len() == 0 {
        Seq::empty()
    } else {
        concat_text(items.drop_last(), layout) + items.last().text(layout)
    }
}

/// A wrapper that concatenates an arbitrary sequence of pretty-printable values.
///
/// Because a `Sequence` is just a thin wrapper around a `Vec`, all of its items
/// must be of the same type.
#[derive(Debug)]
pub struct Sequence<T>(pub Vec<T>);

impl<T: Clone> Clone for Sequence<T> {
    /// A sequence of clones of the items, in the same order.
    fn clone(&self) -> (copy: Self)
        ensures
            copy.0@.len() == self.0@.len(),
            forall|i: int| 0 <= i < self.0@.len() ==> cloned(self.0@[i], #[trigger] copy.0@[i]),
    {
        Sequence(self.0.clone())
    }
}

impl<T: Pretty> Pretty for Sequence<T> {
    /// The sum of the widths of the items.
    open spec fn width(&self) -> Width {
        total_width(self.0@)
    }

    /// The texts of the items in order, each under the layout that the
    /// sequence was given.
    open spec fn text(&self, layout: Layout) -> Text {
        concat_text(self.0@, layout)
    }

    open spec fn measurable(&self) -> bool {
        &&& forall|i: int| 0 <= i < self.0@.len() ==> (#[trigger] self.0@[i]).measurable()
        &&& forall|n: int|
            0 <= n <= self.0@.len() ==> (#[trigger] total_width(self.0@.take(n))).representable()
    }

    open spec fn printable(&self, layout: Layout) -> bool {
        forall|i: int| 0 <= i < self.0@.len() ==> (#[trigger] self.0@[i]).printable(layout)
    }

    fn size(&self) -> (size: Size) {
        let mut total = Size::Size(0);
        let mut done: usize = 0;
        while done < self.0.len()
            invariant
                done <= self.0@.len(),
                self.measurable(),
                total@ == total_width(self.0@.take(done as int)),
            decreases self.0@.len() - done,
        {
            assert(self.0@.take(done + 1).drop_last() =~= self.0@.take(done as int));
            assert(total_width(self.0@.take(done + 1)).representable());
            total = total + self.0[done].size();
            done += 1;
        }
        assert(self.0@.take(done as int) =~= self.0@);
        total
    }

    fn pretty_write(&self, mut context: Context) {
        let ghost before = context.writer@;
        let ghost layout = context@;
        let ghost after = *final(context.writer);
        let mut done: usize = 0;
        while done < self.0.len()
            invariant
                done <= self.0@.len(),
                self.printable(layout),
                context@ == layout,
                context.writer@ == before + concat_text(self.0@.take(done as int), layout),
                *final(context.writer) == after,
            decreases self.0@.len() - done,
        {
            assert(self.0@.take(done + 1).drop_last() =~= self.0@.take(done as int));
            self.0[done].pretty_write(context.reborrow());
            done += 1;
        }
        assert(self.0@.take(done as int) =~= self.0@);
    }
}

/// A wrapper which decides whether or not to render its contents based on the
/// breaking mode of the environment.
#[derive(Copy, Debug)]
pub enum Conditional<T> {
    /// Render the wrapped value under all circumstances
    Always(T),
    /// Render the wrapped value only when it appears in a multi-line context
    OnlyBroken(T),
    /// Render the wrapped value only when it appears in a single-line context
    OnlyUnbroken(T),
}

impl<T: Clone> Clone for Conditional<T> {
    /// The same condition on a clone of the wrapped value.
    fn clone(&self) -> (copy: Self)
        ensures
            cloned(self.content(), copy.content()),
            forall|broken: bool| copy.shown(broken) == self.shown(broken),
    {
        match self {
            Conditional::Always(inner) => Conditional::Always(inner.clone()),
            Conditional::OnlyBroken(inner) => Conditional::OnlyBroken(inner.clone()),
            Conditional::OnlyUnbroken(inner) => Conditional::OnlyUnbroken(inner.clone()),
        }
    }
}

impl<T> Conditional<T> {
    /// The wrapped value.
    pub open spec fn content(&self) -> T {
        match *self {
            Conditional::Always(inner) => inner,
            Conditional::OnlyBroken(inner) => inner,
            Conditional::OnlyUnbroken(inner) => inner,
        }
    }

    /// Whether the wrapped value is rendered in the given break mode.
    pub open spec fn shown(&self, broken: bool) -> bool {
        match *self {
            Conditional::Always(_) => true,
            Conditional::OnlyBroken(_) => broken,
            Conditional::OnlyUnbroken(_) => !broken,
        }
    }
}

impl<T: Pretty> Pretty for Conditional<T> {
    /// A conditional value takes no part in the width of what is around it.
    open spec fn width(&self) -> Width {
        Width::Columns(0)
    }

    /// The text of the wrapped value if the break mode is the one asked for,
    /// and nothing otherwise.
    open spec fn text(&self, layout: Layout) -> Text {
        if self.shown(layout.broken) {
            self.content().text(layout)
        } else {
            Seq::empty()
        }
    }

    open spec fn measurable(&self) -> bool {
        true
    }

    open spec fn printable(&self, layout: Layout) -> bool {
        self.shown(layout.broken) ==> self.content().printable(layout)
    }

    fn size(&self) -> (size: Size) {
        Size::Size(0)
    }

    fn pretty_write(&self, context: Context) {
        match (self, context.broken) {
            (Conditional::Always(inner), _)
            | (Conditional::OnlyBroken(inner), true)
            | (Conditional::OnlyUnbroken(inner), false) => inner.pretty_write(context),
            _ => {},
        }
    }
}

/// An `Option` will render its contents if it is `Some`, or an empty string if
/// it is `None`.
///
/// This is useful when you need multiple pretty values to have the same type,
/// even though they are not all of exactly the same form when rendered.
impl<T: Pretty> Pretty for Option<T> {
    /// The width of the contents, or no columns if there are none.
    open spec fn width(&self) -> Width {
        match *self {
            Some(inner) => inner.width(),
            None => Width::Columns(0),
        }
    }

    /// The text of the contents, or nothing if there are none.
    open spec fn text(&self, layout: Layout) -> Text {
        match *self {
            Some(inner) => inner.text(layout),
            None => Seq::empty(),
        }
    }

    open spec fn measurable(&self) -> bool {
        match *self {
            Some(inner) => inner.measurable(),
            None => true,
        }
    }

    open spec fn printable(&self, layout: Layout) -> bool {
        match *self {
            Some(inner) => inner.printable(layout),
            None => true,
        }
    }

    fn size(&self) -> (size: Size) {
        match self {
            Some(inner) => inner.size(),
            None => Size::Size(0),
        }
    }

    fn pretty_write(&self, context: Context) {
        match self {
            Some(inner) => inner.pretty_write(context),
            None => {},
        }
    }
}

} // verus!
