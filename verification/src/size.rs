//! The size algebra: how many columns a piece of content takes when it is laid
//! out on a single line, or the fact that it cannot be laid out on one line at all.

use std::cmp::Ordering;
use std::ops::{Add, Mul};
use vstd::prelude::*;
use vstd::std_specs::cmp::PartialOrdSpecImpl;
use vstd::std_specs::ops::{AddSpecImpl, MulSpecImpl};

verus! {

/// The mathematical width of some content: a number of columns, or `Unbounded`
/// for content that is inherently multi-line.
///
/// This is the model that all contracts speak of. It is not limited by the
/// machine's word size.
pub enum Width {
    Columns(nat),
    Unbounded,
}

impl Width {
    /// Sum of two widths. `Unbounded` absorbs every other width.
    pub open spec fn plus(self, other: Width) -> Width {
        match (self, other) {
            (Width::Columns(a), Width::Columns(b)) => Width::Columns(a + b),
            _ => Width::Unbounded,
        }
    }

    /// A width scaled by a factor. `Unbounded` stays `Unbounded`.
    pub open spec fn times(self, factor: nat) -> Width {
        match self {
            Width::Columns(a) => Width::Columns(a * factor),
            Width::Unbounded => Width::Unbounded,
        }
    }

    /// The total order on widths: columns compare by their count, and
    /// `Unbounded` is greater than every count and equal only to itself.
    pub open spec fn le(self, other: Width) -> bool {
        match (self, other) {
            (Width::Columns(a), Width::Columns(b)) => a <= b,
            (_, Width::Unbounded) => true,
            (Width::Unbounded, Width::Columns(_)) => false,
        }
    }

    /// Strict version of [`Width::le`].
    pub open spec fn lt(self, other: Width) -> bool {
        self.le(other) && self != other
    }

    /// The bound that a maximum line length stands for: an absent maximum is
    /// the `Unbounded` width.
    pub open spec fn bound(max_line: Option<usize>) -> Width {
        match max_line {
            Some(max) => Width::Columns(max as nat),
            None => Width::Unbounded,
        }
    }

    /// Whether this width is strictly greater than the given maximum line length.
    ///
    /// Nothing exceeds an absent maximum, not even `Unbounded`.
    pub open spec fn exceeds(self, max_line: Option<usize>) -> bool {
        Width::bound(max_line).lt(self)
    }

    /// Whether a [`Size`] can hold this width.
    pub open spec fn representable(self) -> bool {
        match self {
            Width::Columns(a) => a <= usize::MAX,
            Width::Unbounded => true,
        }
    }
}

/// Addition of widths is associative and commutative. Zero columns are its
/// neutral element, and `Unbounded` absorbs every width.
pub proof fn lemma_plus_laws(a: Width, b: Width, c: Width)
    ensures
        a.plus(b).plus(c) == a.plus(b.plus(c)),
        a.plus(b) == b.plus(a),
        a.plus(Width::Columns(0)) == a,
        a.plus(Width::Unbounded) == Width::Unbounded,
{
}

/// Scaling by one changes nothing, scaling twice is scaling by the product,
/// and scaling distributes over addition.
pub proof fn lemma_times_laws(a: Width, b: Width, factor: nat, other: nat)
    ensures
        a.times(1) == a,
        a.times(factor).times(other) == a.times(factor * other),
        a.plus(b).times(factor) == a.times(factor).plus(b.times(factor)),
{
    if let Width::Columns(x) = a {
        assert(x * factor * other == x * (factor * other)) by (nonlinear_arith);
        if let Width::Columns(y) = b {
            assert((x + y) * factor == x * factor + y * factor) by (nonlinear_arith);
        }
    }
}

/// Widths are totally ordered, with `Unbounded` above every number of columns
/// and equal only to itself.
pub proof fn lemma_le_is_a_total_order(a: Width, b: Width, c: Width)
    ensures
        a.le(a),
        a.le(b) && b.le(a) ==> a == b,
        a.le(b) && b.le(c) ==> a.le(c),
        a.le(b) || b.le(a),
        a.lt(b) <==> !b.le(a),
        a.le(Width::Unbounded),
        Width::Unbounded.le(a) ==> a == Width::Unbounded,
{
}

/// Adding a width never makes a width smaller, and addition keeps the order.
pub proof fn lemma_plus_is_monotone(a: Width, b: Width, c: Width)
    ensures
        a.le(a.plus(c)),
        a.le(b) ==> a.plus(c).le(b.plus(c)),
{
}

/// Nothing exceeds an absent maximum, and `Unbounded` exceeds every maximum
/// that is there. A maximum is not exceeded by itself, and what is above a
/// width that exceeds a maximum exceeds it too.
pub proof fn lemma_exceeds_laws(a: Width, b: Width, max_line: Option<usize>)
    ensures
        max_line is None ==> !a.exceeds(max_line),
        max_line is Some ==> Width::Unbounded.exceeds(max_line),
        max_line matches Some(max) ==> (Width::Columns(max as nat).exceeds(max_line) == false),
        a.le(b) && a.exceeds(max_line) ==> b.exceeds(max_line),
{
}

/// The number of visual columns a value would take up if it were displayed on
/// one line, unless it is inherently multi-line.
#[derive(Debug, Clone, Copy, PartialEq, Eq, Structural, Ord)]
pub enum Size {
    Size(usize),
    MultiLine,
}

impl View for Size {
    type V = Width;

    open spec fn view(&self) -> Width {
        match *self {
            Size::Size(columns) => Width::Columns(columns as nat),
            Size::MultiLine => Width::Unbounded,
        }
    }
}

impl Size {
    /// Whether this size is strictly greater than the maximum line length,
    /// where an absent maximum means lines of unlimited length.
    pub fn exceeds(self, max_line: Option<usize>) -> (b: bool)
        ensures
            b == self@.exceeds(max_line),
    {
        match (self, max_line) {
            (Size::Size(columns), Some(max)) => columns > max,
            (Size::MultiLine, Some(_)) => true,
            (_, None) => false,
        }
    }
}

impl PartialOrdSpecImpl for Size {
    open spec fn obeys_partial_cmp_spec() -> bool {
        true
    }

    open spec fn partial_cmp_spec(&self, other: &Size) -> Option<Ordering> {
        if self@ == other@ {
            Some(Ordering::Equal)
        } else if self@.le(other@) {
            Some(Ordering::Less)
        } else {
            Some(Ordering::Greater)
        }
    }
}

impl PartialOrd for Size {
    /// Sizes are totally ordered: by their column count, with `MultiLine` above
    /// every count.
    fn partial_cmp(&self, other: &Size) -> (order: Option<Ordering>) {
        match (*self, *other) {
            (Size::Size(size1), Size::Size(size2)) => {
                if size1 < size2 {
                    Some(Ordering::Less)
                } else if size1 == size2 {
                    Some(Ordering::Equal)
                } else {
                    Some(Ordering::Greater)
                }
            },
            (Size::Size(_), Size::MultiLine) => Some(Ordering::Less),
            (Size::MultiLine, Size::Size(_)) => Some(Ordering::Greater),
            (Size::MultiLine, Size::MultiLine) => Some(Ordering::Equal),
        }
    }
}

impl AddSpecImpl<Size> for Size {
    open spec fn obeys_add_spec() -> bool {
        true
    }

    open spec fn add_req(self, other: Size) -> bool {
        self@.plus(other@).representable()
    }

    open spec fn add_spec(self, other: Size) -> Size {
        match (self, other) {
            (Size::Size(a), Size::Size(b)) => Size::Size((a + b) as usize),
            _ => Size::MultiLine,
        }
    }
}

impl Add<Size> for Size {
    type Output = Size;

    /// The sum of two sizes; `MultiLine` absorbs every other size.
    fn add(self, other: Size) -> (sum: Size)
        ensures
            sum@ == self@.plus(other@),
    {
        match (self, other) {
            (Size::Size(size1), Size::Size(size2)) => Size::Size(size1 + size2),
            _ => Size::MultiLine,
        }
    }
}

impl MulSpecImpl<usize> for Size {
    open spec fn obeys_mul_spec() -> bool {
        true
    }

    open spec fn mul_req(self, other: usize) -> bool {
        self@.times(other as nat).representable()
    }

    open spec fn mul_spec(self, other: usize) -> Size {
        match self {
            Size::Size(a) => Size::Size((a * other) as usize),
            Size::MultiLine => Size::MultiLine,
        }
    }
}

impl Mul<usize> for Size {
    type Output = Size;

    /// A size scaled by a factor; `MultiLine` stays `MultiLine`.
    fn mul(self, other: usize) -> (product: Size)
        ensures
            product@ == self@.times(other as nat),
    {
        match self {
            Size::Size(size) => Size::Size(size * other),
            Size::MultiLine => Size::MultiLine,
        }
    }
}

} // verus!
