use graph_index::EdgeIndex;
use graph_index::Index;
use graph_index::NodeIndex;

#[test]
fn u8_zero() {
    let u = u8::zero();
    assert_eq!(u, 0);
}

#[test]
fn u8_is_zero() {
    let u = u8::zero();
    assert!(u.is_zero());
}

#[test]
fn u8_new() {
    let u = u8::new(10);
    assert_eq!(u, 10);
}

#[test]
fn u8_next() {
    let u = u8::new(10).next();
    assert_eq!(u, 11);
}

#[test]
fn u8_index() {
    let u = u8::new(10).index();
    assert_eq!(u, 10);
}

#[test]
fn new_round_trips_below_modulus() {
    assert_eq!(u8::new(255).index(), 255);
    assert_eq!(u16::new(1000).index(), 1000);
    assert_eq!(u32::new(123_456).index(), 123_456);
    assert_eq!(u64::new(u32::MAX as usize).index(), u32::MAX as usize);
    assert_eq!(u128::new(77).index(), 77);
}

#[test]
fn new_truncates_out_of_range() {
    assert_eq!(u8::new(300), 44);
    assert_eq!(u8::new(256), 0);
    assert_eq!(u16::new(0x1_0001), 1);
    assert_eq!(u32::new(0x1_0000_0002), 2);
}

#[test]
fn next_is_new_of_plus_one() {
    assert_eq!(u8::new(10).next(), u8::new(11));
    assert_eq!(u16::new(999).next(), u16::new(1000));
    assert_eq!(u32::new(7).next(), u32::new(8));
}

#[test]
fn next_wraps_at_the_boundary() {
    assert_eq!(u8::new(255).next(), 0);
    assert_eq!(u16::new(0xFFFF).next(), 0);
    assert_eq!(u32::MAX.next(), 0);
    assert_eq!(u64::MAX.next(), 0);
}

#[test]
fn is_zero_only_for_the_minimum() {
    assert!(u8::zero().is_zero());
    assert!(!1u8.is_zero());
    assert!(!255u8.is_zero());
    assert!(u64::zero().is_zero());
    assert!(!u64::MAX.is_zero());
}

#[test]
fn u128_reads_back_through_usize() {
    let high: u128 = 1u128 << 64;
    assert_eq!(high.index(), 0);
    assert!(!high.is_zero());
    assert_eq!((high + 5).index(), 5);
}

#[test]
fn node_index_delegates() {
    let n = NodeIndex::<u8>::new(10);
    assert_eq!(n.index(), 10);
    assert!(!n.is_zero());
    assert!(NodeIndex::<u8>::zero().is_zero());
    assert_eq!(n.next(), NodeIndex::<u8>::new(11));
}

#[test]
fn node_index_scenario() {
    let n = NodeIndex::<u8>::from(250usize);
    let n = n.next().next().next();
    assert_eq!(n.index(), 253);
    let fresh: NodeIndex = Default::default();
    assert!(fresh.is_zero());
}

#[test]
fn edge_index_delegates() {
    let e = EdgeIndex::<u16>::new(500);
    assert_eq!(e.index(), 500);
    assert_eq!(e.next().index(), 501);
    assert!(EdgeIndex::<u16>::zero().is_zero());
    let fresh: EdgeIndex = Default::default();
    assert!(fresh.is_zero());
}

#[test]
fn wrappers_convert_from_inner_and_usize() {
    let n: NodeIndex<u8> = NodeIndex::from(7u8);
    assert_eq!(n.index(), 7);
    let e: EdgeIndex<u32> = EdgeIndex::from(90usize);
    assert_eq!(e.index(), 90);
}

#[test]
fn wrappers_order_by_value() {
    assert!(NodeIndex::<u8>::new(1) < NodeIndex::<u8>::new(2));
    assert!(EdgeIndex::<u8>::new(3) > EdgeIndex::<u8>::new(2));
    assert_eq!(NodeIndex::<u8>::new(4), NodeIndex::<u8>::new(4));
}

#[test]
fn wrappers_debug_name_their_kind() {
    assert_eq!(format!("{:?}", NodeIndex::<u8>::new(3)), "NodeIndex(3)");
    assert_eq!(format!("{:?}", EdgeIndex::<u8>::new(9)), "EdgeIndex(9)");
}
