//! The edge-direction tag and the indexer capability.

use vstd::prelude::*;

verus! {

use vstd::std_specs::cmp::PartialOrdSpec;

/// Something that can be read as a plain index value.
pub trait Indexer {
    type Output;

    /// The value `to_index` reads out.
    spec fn spec_to_index(&self) -> Self::Output;

    /// Reads this value as a plain index.
    fn to_index(&self) -> (r: Self::Output)
        ensures
            r == self.spec_to_index(),
    ;
}

/// The two traversal orientations of a graph edge.
///
/// `Outgoing` maps to `false`/`0` and `Incoming` to `true`/`1`; the numeric
/// conversion back accepts any value, reading every nonzero one as
/// `Incoming`. `Outgoing` sorts strictly before `Incoming`.
#[derive(Copy, Debug, PartialEq, Ord, Eq, Hash)]
pub enum Direction {
    Outgoing,
    Incoming,
}

/// The boolean form of a direction.
pub open spec fn direction_as_bool(d: Direction) -> bool {
    d is Incoming
}

/// The direction a boolean stands for.
pub open spec fn direction_from_bool(b: bool) -> Direction {
    if b {
        Direction::Incoming
    } else {
        Direction::Outgoing
    }
}

/// The numeric form of a direction.
pub open spec fn direction_as_usize(d: Direction) -> usize {
    if d is Incoming {
        1
    } else {
        0
    }
}

/// The direction a number stands for: zero is `Outgoing`, everything else
/// reads as `Incoming`.
pub open spec fn direction_from_usize(u: usize) -> Direction {
    if u == 0 {
        Direction::Outgoing
    } else {
        Direction::Incoming
    }
}

impl Direction {
    /// The other orientation.
    pub open spec fn spec_opposite(self) -> Direction {
        match self {
            Direction::Outgoing => Direction::Incoming,
            Direction::Incoming => Direction::Outgoing,
        }
    }
}

impl Clone for Direction {
    /// A direction is copied as it stands.
    fn clone(&self) -> (r: Direction)
        ensures
            r == *self,
    {
        *self
    }
}

impl From<Direction> for bool {
    /// Reads a direction as its boolean form.
    fn from(d: Direction) -> (r: bool) {
        match d {
            Direction::Outgoing => false,
            Direction::Incoming => true,
        }
    }
}

impl vstd::std_specs::convert::FromSpecImpl<Direction> for bool {
    open spec fn obeys_from_spec() -> bool {
        true
    }

    open spec fn from_spec(d: Direction) -> bool {
        direction_as_bool(d)
    }
}

impl From<bool> for Direction {
    /// Reads a boolean as a direction.
    fn from(b: bool) -> (r: Direction) {
        if b {
            Direction::Incoming
        } else {
            Direction::Outgoing
        }
    }
}

impl vstd::std_specs::convert::FromSpecImpl<bool> for Direction {
    open spec fn obeys_from_spec() -> bool {
        true
    }

    open spec fn from_spec(b: bool) -> Direction {
        direction_from_bool(b)
    }
}

impl From<Direction> for usize {
    /// Reads a direction as its numeric form.
    fn from(d: Direction) -> (r: usize) {
        match d {
            Direction::Outgoing => 0,
            Direction::Incoming => 1,
        }
    }
}

impl vstd::std_specs::convert::FromSpecImpl<Direction> for usize {
    open spec fn obeys_from_spec() -> bool {
        true
    }

    open spec fn from_spec(d: Direction) -> usize {
        direction_as_usize(d)
    }
}

impl<'a> From<&'a Direction> for usize {
    /// Reads a borrowed direction as its numeric form.
    fn from(d: &'a Direction) -> (r: usize) {
        match *d {
            Direction::Outgoing => 0,
            Direction::Incoming => 1,
        }
    }
}

impl<'a> vstd::std_specs::convert::FromSpecImpl<&'a Direction> for usize {
    open spec fn obeys_from_spec() -> bool {
        true
    }

    open spec fn from_spec(d: &'a Direction) -> usize {
        direction_as_usize(*d)
    }
}

impl From<usize> for Direction {
    /// Reads a number as a direction: zero is `Outgoing`, every other value
    /// `Incoming`.
    fn from(u: usize) -> (r: Direction) {
        if u == 0 {
            Direction::Outgoing
        } else {
            Direction::Incoming
        }
    }
}

impl vstd::std_specs::convert::FromSpecImpl<usize> for Direction {
    open spec fn obeys_from_spec() -> bool {
        true
    }

    open spec fn from_spec(u: usize) -> Direction {
        direction_from_usize(u)
    }
}

impl Indexer for Direction {
    type Output = usize;

    open spec fn spec_to_index(&self) -> usize {
        direction_as_usize(*self)
    }

    fn to_index(&self) -> (r: usize) {
        usize::from(*self)
    }
}

impl core::ops::Not for Direction {
    type Output = Direction;

    /// The complement: swaps the two orientations.
    fn not(self) -> (r: Direction)
        ensures
            r == self.spec_opposite(),
    {
        match self {
            Direction::Outgoing => Direction::Incoming,
            Direction::Incoming => Direction::Outgoing,
        }
    }
}

impl vstd::std_specs::ops::NotSpecImpl for Direction {
    open spec fn obeys_not_spec() -> bool {
        true
    }

    open spec fn not_req(self) -> bool {
        true
    }

    open spec fn not_spec(self) -> Direction {
        self.spec_opposite()
    }
}

impl PartialOrd for Direction {
    /// Orders the orientations as their numeric forms: `Outgoing` first.
    fn partial_cmp(&self, other: &Direction) -> (r: Option<core::cmp::Ordering>) {
        match (self, other) {
            (Direction::Outgoing, Direction::Outgoing) => Some(core::cmp::Ordering::Equal),
            (Direction::Outgoing, Direction::Incoming) => Some(core::cmp::Ordering::Less),
            (Direction::Incoming, Direction::Outgoing) => Some(core::cmp::Ordering::Greater),
            (Direction::Incoming, Direction::Incoming) => Some(core::cmp::Ordering::Equal),
        }
    }
}

impl vstd::std_specs::cmp::PartialOrdSpecImpl for Direction {
    open spec fn obeys_partial_cmp_spec() -> bool {
        true
    }

    open spec fn partial_cmp_spec(&self, other: &Direction) -> Option<core::cmp::Ordering> {
        match (*self, *other) {
            (Direction::Outgoing, Direction::Outgoing) => Some(core::cmp::Ordering::Equal),
            (Direction::Outgoing, Direction::Incoming) => Some(core::cmp::Ordering::Less),
            (Direction::Incoming, Direction::Outgoing) => Some(core::cmp::Ordering::Greater),
            (Direction::Incoming, Direction::Incoming) => Some(core::cmp::Ordering::Equal),
        }
    }
}

/// Taking the opposite twice gives the direction back, and the opposite
/// always differs from the direction itself.
pub proof fn lemma_opposite_involution(d: Direction)
    ensures
        d.spec_opposite().spec_opposite() == d,
        d.spec_opposite() != d,
{
}

/// A direction survives the round trip through its boolean form.
pub proof fn lemma_direction_bool_round_trip(d: Direction)
    ensures
        direction_from_bool(direction_as_bool(d)) == d,
{
}

/// A direction survives the round trip through its numeric form.
pub proof fn lemma_direction_usize_round_trip(d: Direction)
    ensures
        direction_from_usize(direction_as_usize(d)) == d,
{
}

/// `Outgoing` sorts strictly before `Incoming` under the total order.
pub proof fn lemma_outgoing_before_incoming()
    ensures
        Direction::Outgoing.partial_cmp_spec(&Direction::Incoming) == Some(
            core::cmp::Ordering::Less,
        ),
{
}

} // verus!
