//! Builders for two common arrangements of the built-in pretty-printable
//! values: delimited sequences and indented blocks.

use crate::combinators::{Indent, Join, JoinExt, Sep, Sequence};
use crate::context::{Layout, Text};
use crate::pretty::Pretty;
use vstd::pervasive::cloned;
use vstd::prelude::*;

verus! {

/// Whether `joined` is `items` separated by `delim`: every item in its place,
/// each but the last followed by a clone of the delimiter, and the last
/// followed by nothing.
pub open spec fn delimits<Delim: Clone, Item>(
    joined: Seq<Join<Item, Option<Delim>>>,
    delim: Delim,
    items: Seq<Item>,
) -> bool {
    &&& joined.len() == items.len()
    &&& forall|i: int| 0 <= i < joined.len() ==> (#[trigger] joined[i]).0 == items[i]
    &&& forall|i: int|
        0 <= i < joined.len() - 1 ==> (#[trigger] joined[i]).1 is Some && cloned(
            delim,
            joined[i].1->0,
        )
    &&& joined.len() > 0 ==> joined.last().1 is None
}

/// The texts of `items` under `layout`, with the text of `delim` between each
/// item and the next, and nothing after the last.
pub open spec fn delimited_text<Delim: Pretty, Item: Pretty>(
    delim: Delim,
    items: Seq<Item>,
    layout: Layout,
) -> Text
    decreases items.len(),
{
    if items.len() == 0 {
        Seq::empty()
    } else if items.len() == 1 {
        items[0].text(layout)
    } else {
        delimited_text(delim, items.drop_last(), layout) + delim.text(layout) + items.last().text(
            layout,
        )
    }
}

/// Separate a sequence of pretty-printable values by a delimiter.
///
/// The delimiter is not included on the last item.
pub fn delimited<Delim, Item>(delim: &Delim, items: Vec<Item>) -> (sequence: Sequence<
    Join<Item, Option<Delim>>,
>) where Delim: Pretty + Clone, Item: Pretty
    ensures
        delimits(sequence.0@, *delim, items@),
{
    let ghost all = items@;
    let count = items.len();
    let mut results: Vec<Join<Item, Option<Delim>>> = Vec::new();
    for item in iter: items.into_iter()
        invariant
            count == all.len(),
            iter.seq() == all,
            results@.len() == iter.index(),
            forall|i: int| 0 <= i < results@.len() ==> (#[trigger] results@[i]).0 == all[i],
            forall|i: int|
                0 <= i < results@.len() ==> if i + 1 < count {
                    (#[trigger] results@[i]).1 is Some && cloned(*delim, results@[i].1->0)
                } else {
                    results@[i].1 is None
                },
    {
        let cond_delim = if results.len() + 1 < count {
            Some(delim.clone())
        } else {
            None
        };
        results.push(item.join(cond_delim));
    }
    Sequence(results)
}

/// Wrap a pretty-printable value so that it will display as an indented block
/// when broken across multiple lines.
///
/// When displayed on a single line, `block` has no effect.
///
/// When displayed on multiple lines, `block` inserts appropriate newlines
/// before and after its content.
///
/// `block(x)` is equivalent to `Indent(Sep(0).join(x)).join(Sep(0))`.
pub fn block<T: Pretty>(content: T) -> (wrapped: Join<Indent<Join<Sep, T>>, Sep>)
    ensures
        wrapped == Join(Indent(Join(Sep(0), content)), Sep(0)),
{
    Indent(Sep(0).join(content)).join(Sep(0))
}

} // verus!
