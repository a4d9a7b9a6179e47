//! A minimal index-abstraction layer for arena-style graph structures: a
//! generic index capability over small unsigned integers, typed wrappers
//! that keep node and edge references apart, and a two-valued edge
//! direction with its boolean and numeric conversions.

pub mod prelude;

mod index;

pub use crate::index::DefaultIdx;
pub use crate::index::EdgeIndex;
pub use crate::index::Index;
pub use crate::index::NodeIndex;
pub use crate::index::lemma_new_round_trip;
pub use crate::index::lemma_next_of_new;
pub use crate::index::usize_bound;
pub use crate::prelude::Direction as EdgeDirection;
