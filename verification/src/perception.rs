//! What one look of the camera yields, and the heading error read from two
//! looks.

use crate::geometry::{angle_between, vector_from, Offset, Position, Rotation, Turn, Vector};
use vstd::prelude::*;

verus! {

/// The box that the detector draws around an object in the frame.
#[derive(Clone, Copy, Debug, PartialEq, Eq, Structural)]
pub struct Region {
    pub x_min: i32,
    pub y_min: i32,
    pub x_max: i32,
    pub y_max: i32,
}

impl Region {
    /// Whether the corners are in order, so that the box holds a point.
    pub open spec fn is_box(self) -> bool {
        self.x_min <= self.x_max && self.y_min <= self.y_max
    }

    /// Whether `p` lies in the box, its edges included.
    pub open spec fn holds(self, p: Position) -> bool {
        self.x_min <= p.x <= self.x_max && self.y_min <= p.y <= self.y_max
    }

    /// The grid point at the middle of the box; halves round downward.
    pub open spec fn middle(self) -> Position {
        Position {
            x: ((self.x_min + self.x_max) / 2) as i32,
            y: ((self.y_min + self.y_max) / 2) as i32,
        }
    }

    /// The grid point at the middle of the box.
    pub fn center(&self) -> (p: Position)
        ensures
            p == self.middle(),
            p.x == (self.x_min + self.x_max) / 2,
            p.y == (self.y_min + self.y_max) / 2,
            self.is_box() ==> self.holds(p),
    {
        Position {
            x: halfway(self.x_min, self.x_max),
            y: halfway(self.y_min, self.y_max),
        }
    }
}

fn halfway(low: i32, high: i32) -> (mid: i32)
    ensures
        mid == (low + high) / 2,
{
    let sum: i64 = low as i64 + high as i64;
    let half: i64 = if sum >= 0 {
        sum / 2
    } else {
        -((1 - sum) / 2)
    };
    half as i32
}

/// The vehicle and the target as one look of the camera shows them.
#[derive(Clone, Copy, Debug, PartialEq, Eq, Structural)]
pub struct MapState {
    pub car: Position,
    pub target: Position,
}

impl MapState {
    /// The heading that the vehicle's own motion between two looks shows.
    pub open spec fn orientation(previous: MapState, current: MapState) -> Offset {
        Offset::between(previous.car, current.car)
    }

    /// The way from the vehicle to the target.
    pub open spec fn bearing(self) -> Offset {
        Offset::between(self.car, self.target)
    }

    /// The rotation that takes the heading shown by two looks to the way to
    /// the target at the second look.
    pub open spec fn heading_error(previous: MapState, current: MapState) -> Turn {
        Turn::between(Self::orientation(previous, current), current.bearing())
    }

    /// The look that shows the two boxes: each object stands at the middle of
    /// its box.
    pub open spec fn inferred(car: Region, target: Region) -> MapState {
        MapState { car: car.middle(), target: target.middle() }
    }

    /// [`MapState::heading_error`] as [`MapState::correction`] holds it.
    pub open spec fn corrected(previous: MapState, current: MapState) -> Rotation {
        let error = Self::heading_error(previous, current);
        Rotation { sine: error.sine as i128, cosine: error.cosine as i128 }
    }

    /// Reads one look: each object stands at the middle of its box.
    pub fn infer(car: Region, target: Region) -> (seen: MapState)
        ensures
            seen == Self::inferred(car, target),
            seen.car == car.middle(),
            seen.target == target.middle(),
    {
        MapState { car: car.center(), target: target.center() }
    }

    /// The displacement of the vehicle from the look `previous` to the look
    /// `current`. Where the vehicle only drove straight in between, it points
    /// along the vehicle's axis.
    pub fn car_orientation(previous: &MapState, current: &MapState) -> (v: Vector)
        ensures
            v@ == Self::orientation(*previous, *current),
    {
        vector_from(previous.car, current.car)
    }

    /// The displacement from the vehicle to the target.
    pub fn car_to_target(&self) -> (v: Vector)
        ensures
            v@ == self.bearing(),
    {
        vector_from(self.car, self.target)
    }

    /// The signed angle by which the vehicle must turn to face the target,
    /// read from two looks around one straight stretch.
    ///
    /// Where the vehicle did not move between the looks, or stands on the
    /// target, the result fixes no angle.
    pub fn correction(previous: &MapState, current: &MapState) -> (r: Rotation)
        ensures
            r@ == Self::heading_error(*previous, *current),
            r == Self::corrected(*previous, *current),
    {
        let orientation = Self::car_orientation(previous, current);
        let car_to_target = current.car_to_target();
        angle_between(orientation, car_to_target)
    }
}

} // verus!
