//! Tunni lines: the line between the two handles of a curve segment.
use vstd::prelude::*;

verus! {

/// The two points, each as (contour index, point index), whose handles make
/// a Tunni line.
#[derive(Clone, Copy, Debug)]
pub struct TunniLineInfo {
    pub a: (usize, usize),
    pub b: (usize, usize),
}

/// Which part of a Tunni construction was clicked.
#[derive(Clone, Copy, Debug, PartialEq, Eq, Structural)]
pub enum Tunni {
    Point,
    Line,
}

} // verus!
