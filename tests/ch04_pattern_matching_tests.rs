use rust_concepts::ch04_pattern_matching::{
    classify_number, classify_pair, place, NumberKind, PairKind, Placement, Point,
};

#[test]
fn test_classify_number() {
    assert_eq!(classify_number(13), NumberKind::Teen);
    assert_eq!(classify_number(1), NumberKind::One);
    assert_eq!(classify_number(2), NumberKind::Prime);
    assert_eq!(classify_number(11), NumberKind::Prime);
    assert_eq!(classify_number(19), NumberKind::Teen);
    assert_eq!(classify_number(12), NumberKind::Other);
    assert_eq!(classify_number(20), NumberKind::Other);
    assert_eq!(classify_number(0), NumberKind::Other);
    assert_eq!(classify_number(i32::MIN), NumberKind::Other);
}

#[test]
fn test_classify_pair() {
    assert_eq!(classify_pair((2, -2)), PairKind::Antimatter);
    assert_eq!(classify_pair((0, 0)), PairKind::Twins);
    assert_eq!(classify_pair((3, 4)), PairKind::FirstOdd);
    assert_eq!(classify_pair((-3, 4)), PairKind::NoCorrelation);
    assert_eq!(classify_pair((4, 3)), PairKind::NoCorrelation);
    assert_eq!(classify_pair((i32::MAX, i32::MAX)), PairKind::Twins);
    assert_eq!(classify_pair((i32::MIN, i32::MAX)), PairKind::NoCorrelation);
    assert_eq!(classify_pair((i32::MAX, -i32::MAX)), PairKind::Antimatter);
}

#[test]
fn test_place() {
    assert_eq!(place(Point { x: 0, y: 7 }), Placement::OnYAxis(7));
    assert_eq!(place(Point { x: 4, y: 0 }), Placement::OnXAxis(4));
    assert_eq!(place(Point { x: 0, y: 0 }), Placement::OnXAxis(0));
    assert_eq!(place(Point { x: -1, y: 2 }), Placement::OnNeither(-1, 2));
}
