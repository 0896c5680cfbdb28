use vstd::prelude::*;

verus! {

/// What a number is, by the first rule that fits: one, a prime below 13, a
/// teen, or none of these.
#[derive(Clone, Copy, Debug, PartialEq, Eq, Structural)]
pub enum NumberKind {
    One,
    Prime,
    Teen,
    Other,
}

pub open spec fn number_kind_of(n: int) -> NumberKind {
    if n == 1 {
        NumberKind::One
    } else if n == 2 || n == 3 || n == 5 || n == 7 || n == 11 {
        NumberKind::Prime
    } else if 13 <= n <= 19 {
        NumberKind::Teen
    } else {
        NumberKind::Other
    }
}

/// Sorts a number with literal, alternative and range patterns.
pub fn classify_number(n: i32) -> (r: NumberKind)
    ensures
        r == number_kind_of(n as int),
{
    match n {
        1 => NumberKind::One,
        2 | 3 | 5 | 7 | 11 => NumberKind::Prime,
        13..=19 => NumberKind::Teen,
        _ => NumberKind::Other,
    }
}

/// How the two parts of a pair relate, by the first guard that holds.
#[derive(Clone, Copy, Debug, PartialEq, Eq, Structural)]
pub enum PairKind {
    Twins,
    Antimatter,
    FirstOdd,
    NoCorrelation,
}

pub open spec fn pair_kind_of(x: int, y: int) -> PairKind {
    if x == y {
        PairKind::Twins
    } else if x + y == 0 {
        PairKind::Antimatter
    } else if x > 0 && x % 2 == 1 {
        PairKind::FirstOdd
    } else {
        PairKind::NoCorrelation
    }
}

/// Sorts a pair with guarded patterns. The sum is taken without overflow, and
/// a first part counts as odd when its remainder by 2 is 1, so a negative one
/// never does.
pub fn classify_pair(pair: (i32, i32)) -> (r: PairKind)
    ensures
        r == pair_kind_of(pair.0 as int, pair.1 as int),
{
    match pair {
        (x, y) if x == y => PairKind::Twins,
        (x, y) if x as i64 + y as i64 == 0 => PairKind::Antimatter,
        (x, _) if x > 0 && x % 2 == 1 => PairKind::FirstOdd,
        _ => PairKind::NoCorrelation,
    }
}

/// A point with integer coordinates.
#[derive(Clone, Copy, Debug, PartialEq, Eq, Structural)]
pub struct Point {
    pub x: i32,
    pub y: i32,
}

/// Where a point lies: on the x axis, on the y axis, or on neither. The
/// origin counts as on the x axis.
#[derive(Clone, Copy, Debug, PartialEq, Eq, Structural)]
pub enum Placement {
    OnXAxis(i32),
    OnYAxis(i32),
    OnNeither(i32, i32),
}

/// Places a point by destructuring it, the x axis tried first.
pub fn place(point: Point) -> (r: Placement)
    ensures
        point.y == 0 ==> r == Placement::OnXAxis(point.x),
        point.y != 0 && point.x == 0 ==> r == Placement::OnYAxis(point.y),
        point.y != 0 && point.x != 0 ==> r == Placement::OnNeither(point.x, point.y),
{
    match point {
        Point { x, y: 0 } => Placement::OnXAxis(x),
        Point { x: 0, y } => Placement::OnYAxis(y),
        Point { x, y } => Placement::OnNeither(x, y),
    }
}

} // verus!
