//! What holds of rendering in general, proved from the definitions of the
//! built-in values.

use crate::builders::{delimited_text, delimits};
use crate::combinators::{
    concat_text, total_width, Group, Indent, Join, Newline, Sep, Sequence,
};
use crate::context::Layout;
use crate::flat::Flat;
use crate::pretty::Pretty;
use crate::size::{lemma_plus_is_monotone, lemma_plus_laws, Width};
use crate::rendering;
use vstd::pervasive::cloned;
use vstd::prelude::*;

verus! {

/// Unlimited width never breaks from size alone: rendered as a whole without
/// a maximum line length, a value is its flat text, in which every separator
/// is its spaces. This holds whatever the width of the value is.
pub proof fn lemma_unlimited_width_is_flat<T: Flat>(content: T, tab_size: usize)
    ensures
        rendering(content, None, tab_size) == content.flat(tab_size as nat, 0),
{
    let layout = Layout::root(content.width(), None, tab_size);
    content.lemma_unlimited_fits(layout);
    content.lemma_fits_flat(layout);
}

/// A group decides for itself: what it renders to does not depend on the
/// break mode around it.
pub proof fn lemma_group_ignores_break_mode<T: Pretty>(
    group: Group<T>,
    layout: Layout,
    broken: bool,
)
    ensures
        group.text(layout.with_broken(broken)) == group.text(layout),
{
}

/// A group whose width together with the margin does not exceed the maximum
/// line length renders its contents unbroken, whatever the break mode around
/// the group is.
pub proof fn lemma_fitting_group_is_unbroken<T: Pretty>(group: Group<T>, layout: Layout)
    requires
        !layout.breaks(group.measured()),
    ensures
        group.text(layout) == group.content().text(layout.with_broken(false)),
{
}

/// A group that fits, and in which every group fits, renders as its flat text:
/// every separator in it is its spaces, what shows only when broken is left
/// out, and what shows only when unbroken is there.
pub proof fn lemma_fitting_group_is_flat<T: Flat>(group: Group<T>, layout: Layout)
    requires
        group.fits(layout),
    ensures
        group.text(layout) == group.flat(layout.tab_size, layout.margin),
{
    group.content().lemma_fits_flat(layout.with_broken(false));
}

/// A group that fits stays within the line: where its width counts every
/// character, its text together with the margin is no longer than the maximum
/// line length. Text that is already on the line is not taken into account.
pub proof fn lemma_fitting_group_stays_within_the_line<T: Flat>(
    group: Group<T>,
    layout: Layout,
    max: usize,
)
    requires
        layout.max_line == Some(max),
        group.fits(layout),
        group.counted(),
    ensures
        layout.margin + group.text(layout).len() <= max,
{
    lemma_fitting_group_is_flat(group, layout);
    group.lemma_counted_width(layout.tab_size, layout.margin);
}

/// Under a maximum line length, a group of unbounded width renders its
/// contents broken.
pub proof fn lemma_unbounded_group_is_broken<T: Pretty>(group: Group<T>, layout: Layout)
    requires
        group.measured() == Width::Unbounded,
        layout.max_line is Some,
    ensures
        group.text(layout) == group.content().text(layout.with_broken(true)),
{
}

/// No trailing delimiter: a delimited sequence renders as its items with the
/// delimiter after each item but the last, provided that a clone of the
/// delimiter renders as the delimiter does.
pub proof fn lemma_delimited_text<Delim: Pretty + Clone, Item: Pretty>(
    sequence: Sequence<Join<Item, Option<Delim>>>,
    delim: Delim,
    items: Seq<Item>,
    layout: Layout,
)
    requires
        delimits(sequence.0@, delim, items),
        forall|copy: Delim| #[trigger] cloned(delim, copy) ==> copy.text(layout) == delim.text(layout),
    ensures
        sequence.text(layout) == delimited_text(delim, items, layout),
{
    let joined = sequence.0@;
    if joined.len() > 0 {
        let last = joined.len() - 1;
        lemma_delimited_prefix(joined, delim, items, layout, last);
        assert(joined.take(last) =~= joined.drop_last());
        assert(items.take(last + 1) =~= items);
    }
}

/// The items before `upto` with the delimiter after each, followed by the
/// item at `upto`, are the delimited text of the items up to and with `upto`.
proof fn lemma_delimited_prefix<Delim: Pretty + Clone, Item: Pretty>(
    joined: Seq<Join<Item, Option<Delim>>>,
    delim: Delim,
    items: Seq<Item>,
    layout: Layout,
    upto: int,
)
    requires
        delimits(joined, delim, items),
        forall|copy: Delim| #[trigger] cloned(delim, copy) ==> copy.text(layout) == delim.text(layout),
        0 <= upto < joined.len(),
    ensures
        concat_text(joined.take(upto), layout) + items[upto].text(layout) == delimited_text(
            delim,
            items.take(upto + 1),
            layout,
        ),
    decreases upto,
{
    if upto > 0 {
        lemma_delimited_prefix(joined, delim, items, layout, upto - 1);
        assert(joined.take(upto).drop_last() =~= joined.take(upto - 1));
        assert(items.take(upto + 1).drop_last() =~= items.take(upto));
    }
}

/// Width and text do not depend on how a concatenation is nested.
pub proof fn lemma_join_regroups<T: Pretty, U: Pretty, V: Pretty>(
    first: T,
    second: U,
    third: V,
    layout: Layout,
)
    ensures
        Join(Join(first, second), third).width() == Join(first, Join(second, third)).width(),
        Join(Join(first, second), third).text(layout) == Join(first, Join(second, third)).text(
            layout,
        ),
{
    lemma_plus_laws(first.width(), second.width(), third.width());
}

/// The width of a sequence is the width of its front plus the width of its
/// back, wherever it is cut.
pub proof fn lemma_sequence_width_splits<T: Pretty>(front: Seq<T>, back: Seq<T>)
    ensures
        total_width(front + back) == total_width(front).plus(total_width(back)),
    decreases back.len(),
{
    if back.len() == 0 {
        assert(front + back =~= front);
    } else {
        assert((front + back).drop_last() =~= front + back.drop_last());
        lemma_sequence_width_splits(front, back.drop_last());
        lemma_plus_laws(
            total_width(front),
            total_width(back.drop_last()),
            back.last().width(),
        );
    }
}

/// The text of a sequence is the text of its front followed by the text of
/// its back, wherever it is cut.
pub proof fn lemma_sequence_text_splits<T: Pretty>(front: Seq<T>, back: Seq<T>, layout: Layout)
    ensures
        concat_text(front + back, layout) == concat_text(front, layout) + concat_text(
            back,
            layout,
        ),
    decreases back.len(),
{
    if back.len() == 0 {
        assert(front + back =~= front);
    } else {
        assert((front + back).drop_last() =~= front + back.drop_last());
        lemma_sequence_text_splits(front, back.drop_last(), layout);
    }
}

/// The width of a sequence is at least the width of each of its fronts. So
/// where the width of the whole is representable and not `Unbounded`, the
/// width of every front is representable too.
pub proof fn lemma_sequence_width_grows<T: Pretty>(items: Seq<T>, upto: int)
    requires
        0 <= upto <= items.len(),
    ensures
        total_width(items.take(upto)).le(total_width(items)),
        total_width(items) is Columns && total_width(items).representable() ==> total_width(
            items.take(upto),
        ).representable(),
{
    let front = items.take(upto);
    let back = items.skip(upto);
    assert(front + back =~= items);
    lemma_sequence_width_splits(front, back);
    lemma_plus_is_monotone(total_width(front), total_width(front), total_width(back));
}

/// A sequence of measurable items whose width is a representable number of
/// columns is measurable.
pub proof fn lemma_sequence_is_measurable<T: Pretty>(sequence: Sequence<T>)
    requires
        forall|i: int| 0 <= i < sequence.0@.len() ==> (#[trigger] sequence.0@[i]).measurable(),
        sequence.width() is Columns,
        sequence.width().representable(),
    ensures
        sequence.measurable(),
{
    assert forall|n: int| 0 <= n <= sequence.0@.len() implies (#[trigger] total_width(
        sequence.0@.take(n),
    )).representable() by {
        lemma_sequence_width_grows(sequence.0@, n);
    }
}

/// Rendering is a function of the value and the configuration: two renderings
/// of the same value under the same maximum line length and tab size are the
/// same text.
pub proof fn lemma_rendering_is_deterministic<T: Pretty>(
    content: T,
    max_line: Option<usize>,
    tab_size: usize,
    first: String,
    second: String,
)
    requires
        first@ == rendering(content, max_line, tab_size),
        second@ == rendering(content, max_line, tab_size),
    ensures
        first@ == second@,
{
}

/// Every line break is a newline character followed by exactly the margin in
/// spaces: the tab size times the indentation level at that point. Both a
/// broken separator and a newline render as such a line break.
pub proof fn lemma_line_break_margin(layout: Layout, sep: Sep)
    requires
        layout.well_formed(),
    ensures
        layout.line_break().len() == 1 + layout.tab_size * layout.indent_level,
        layout.line_break()[0] == '\n',
        forall|i: int| 1 <= i < layout.line_break().len() ==> layout.line_break()[i] == ' ',
        Newline.text(layout) == layout.line_break(),
        layout.broken ==> sep.text(layout) == layout.line_break(),
{
}

/// The layout at the top level is well formed, and so is every layout that the
/// built-in values hand on from a well-formed one: with another break mode,
/// one level deeper, or as a group of some width decides.
pub proof fn lemma_layouts_are_well_formed(
    layout: Layout,
    width: Width,
    max_line: Option<usize>,
    tab_size: usize,
    broken: bool,
)
    ensures
        Layout::root(width, max_line, tab_size).well_formed(),
        layout.well_formed() ==> layout.with_broken(broken).well_formed(),
        layout.well_formed() ==> layout.grouped(width).well_formed(),
        layout.well_formed() ==> layout.indented().well_formed(),
{
    assert(layout.tab_size * (layout.indent_level + 1) == layout.tab_size * layout.indent_level
        + layout.tab_size) by (nonlinear_arith);
}

/// Indentation is scoped: what is inside an `Indent` is rendered one level
/// deeper, and what comes before and after it is rendered at the level around
/// it.
pub proof fn lemma_indent_is_scoped<T: Pretty, U: Pretty, V: Pretty>(
    before: T,
    inner: U,
    after: V,
    layout: Layout,
)
    ensures
        Indent(inner).text(layout) == inner.text(layout.indented()),
        layout.indented().indent_level == layout.indent_level + 1,
        layout.indented().margin == layout.margin + layout.tab_size,
        Join(Join(before, Indent(inner)), after).text(layout) == before.text(layout) + inner.text(
            layout.indented(),
        ) + after.text(layout),
{
}

/// Rendered unbroken, a block is its contents and nothing else; rendered
/// broken, it is a line break one level deeper, the contents one level deeper,
/// and a line break at the level around the block.
pub proof fn lemma_block_text<T: Pretty>(content: T, layout: Layout)
    ensures
        ({
            let wrapped = Join(Indent(Join(Sep(0), content)), Sep(0));
            wrapped.text(layout) == if layout.broken {
                layout.indented().line_break() + content.text(layout.indented())
                    + layout.line_break()
            } else {
                content.text(layout.indented())
            }
        }),
{
}

} // verus!
