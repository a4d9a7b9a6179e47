use graph_index::EdgeDirection;
use graph_index::prelude::Direction;
use graph_index::prelude::Indexer;

#[test]
fn bool_round_trip() {
    for d in [Direction::Outgoing, Direction::Incoming] {
        let b: bool = d.into();
        assert_eq!(Direction::from(b), d);
    }
    assert_eq!(bool::from(Direction::Outgoing), false);
    assert_eq!(bool::from(Direction::Incoming), true);
}

#[test]
fn usize_round_trip() {
    for d in [Direction::Outgoing, Direction::Incoming] {
        let u: usize = d.into();
        assert_eq!(Direction::from(u), d);
    }
    assert_eq!(usize::from(Direction::Outgoing), 0);
    assert_eq!(usize::from(Direction::Incoming), 1);
}

#[test]
fn nonzero_input_reads_as_incoming() {
    assert_eq!(Direction::from(2usize), Direction::Incoming);
    assert_eq!(Direction::from(usize::MAX), Direction::Incoming);
    assert_eq!(Direction::from(0usize), Direction::Outgoing);
}

#[test]
fn reference_converts_like_value() {
    for d in [Direction::Outgoing, Direction::Incoming] {
        let by_ref: usize = (&d).into();
        let by_val: usize = d.into();
        assert_eq!(by_ref, by_val);
    }
}

#[test]
fn opposite_swaps_and_involutes() {
    for d in [Direction::Outgoing, Direction::Incoming] {
        assert_ne!(!d, d);
        assert_eq!(!!d, d);
    }
    assert_eq!(!Direction::Outgoing, Direction::Incoming);
}

#[test]
fn to_index_matches_numeric_form() {
    assert_eq!(Direction::Outgoing.to_index(), 0);
    assert_eq!(Direction::Incoming.to_index(), 1);
}

#[test]
fn outgoing_sorts_before_incoming() {
    assert!(Direction::Outgoing < Direction::Incoming);
    assert_eq!(
        Direction::Outgoing.cmp(&Direction::Incoming),
        std::cmp::Ordering::Less
    );
}

#[test]
fn clone_keeps_the_value() {
    let d = Direction::Incoming;
    assert_eq!(d.clone(), d);
}

#[test]
fn exported_alias_names_the_same_type() {
    let d: EdgeDirection = Direction::Outgoing;
    assert_eq!(d, Direction::Outgoing);
}
