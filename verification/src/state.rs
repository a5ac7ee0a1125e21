//! The demo's application state: a ball with a position and a color, and the
//! frequency of a sine plot. All scalar quantities are held in tenths of a
//! logical unit, so that the number dialer's one decimal of precision is
//! represented exactly.

use vstd::prelude::*;

verus! {

/// Smallest frequency the number dialer accepts, in tenths.
pub const FREQ_MIN: i64 = 5;

/// Largest frequency the number dialer accepts, in tenths.
pub const FREQ_MAX: i64 = 2000;

/// Bound on every dimension and coordinate the demo works with, in tenths of
/// a logical unit. Keeping all scalars within this bound keeps every
/// derived quantity far from `i64` overflow.
pub const DIM_LIMIT: i64 = 100_000_000;

/// The two colors the ball toggles between.
#[derive(Clone, Copy, PartialEq, Eq, Structural, Debug)]
pub enum BallColor {
    White,
    Black,
}

/// A position in logical coordinates, in tenths of a unit.
#[derive(Clone, Copy, PartialEq, Eq, Structural, Debug)]
pub struct Point {
    pub x: i64,
    pub y: i64,
}

/// Handle of an image registered with the image map at startup.
#[derive(Clone, Copy, PartialEq, Eq, Structural, Debug)]
pub struct ImageId(pub u64);

/// Application state a GUI controls: the demonstration record.
pub struct DemoApp {
    pub ball_xy: Point,
    pub ball_color: BallColor,
    pub sine_frequency: i64,
    pub rust_logo: ImageId,
}

impl DemoApp {
    /// The frequency stays within the dialer's range and the ball stays
    /// within the global coordinate bound.
    pub open spec fn wf(self) -> bool {
        &&& FREQ_MIN <= self.sine_frequency <= FREQ_MAX
        &&& -DIM_LIMIT <= self.ball_xy.x <= DIM_LIMIT
        &&& -DIM_LIMIT <= self.ball_xy.y <= DIM_LIMIT
    }

    /// Simple constructor: ball at the origin, white, frequency one unit.
    pub fn new(rust_logo: ImageId) -> (r: DemoApp)
        ensures
            r.ball_xy == (Point { x: 0, y: 0 }),
            r.ball_color == BallColor::White,
            r.sine_frequency == 10,
            r.rust_logo == rust_logo,
            r.wf(),
    {
        DemoApp {
            ball_xy: Point { x: 0, y: 0 },
            ball_color: BallColor::White,
            sine_frequency: 10,
            rust_logo,
        }
    }
}

} // verus!
