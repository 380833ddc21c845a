//! The value types that requests are generated from and responses are parsed into.
//!
//! Angles are held as whole numbers: a coordinate counts millionths of a degree,
//! a course counts degrees.

use vstd::prelude::*;

verus! {

/// The largest latitude, in millionths of a degree.
pub const MAX_LATITUDE: i32 = 90_000_000;

/// The largest longitude, in millionths of a degree.
pub const MAX_LONGITUDE: i32 = 180_000_000;

/// Whether a latitude and a longitude, in millionths of a degree, lie on the
/// globe: at most ninety degrees north or south, and at most a hundred and
/// eighty east or west.
pub open spec fn on_globe(lat: int, lng: int) -> bool {
    &&& -MAX_LATITUDE <= lat <= MAX_LATITUDE
    &&& -MAX_LONGITUDE <= lng <= MAX_LONGITUDE
}

/// A position on the globe, in millionths of a degree.
#[derive(Clone, Copy, Debug, PartialEq, Eq)]
pub struct GeographicCoordinate {
    pub lat: i32,
    pub lng: i32,
}

impl GeographicCoordinate {
    /// Whether the position lies on the globe.
    pub open spec fn on_globe(self) -> bool {
        on_globe(self.lat as int, self.lng as int)
    }

    /// Tells whether the position lies on the globe.
    pub fn is_on_globe(&self) -> (answer: bool)
        ensures
            answer == self.on_globe(),
    {
        -MAX_LATITUDE <= self.lat && self.lat <= MAX_LATITUDE && -MAX_LONGITUDE <= self.lng
            && self.lng <= MAX_LONGITUDE
    }
}

/// The direction of travel, in degrees clockwise from north.
#[derive(Clone, Copy, Debug, PartialEq, Eq)]
pub struct CourseOverGround {
    pub degrees: u16,
}

/// Where the traveller is when a route is asked for, and, if known, which way
/// they are heading.
#[derive(Clone, Copy, Debug, PartialEq, Eq)]
pub struct UserLocation {
    pub coordinates: GeographicCoordinate,
    pub course_over_ground: Option<CourseOverGround>,
}

/// How a route treats a waypoint.
#[derive(Clone, Copy, Debug, PartialEq, Eq)]
pub enum WaypointKind {
    /// The route stops here: a leg ends and the next begins.
    Break,
    /// The route passes through without stopping.
    Via,
}

/// A stop that the route must pass through or near.
#[derive(Clone, Copy, Debug, PartialEq, Eq)]
pub struct Waypoint {
    pub coordinate: GeographicCoordinate,
    pub kind: WaypointKind,
}

/// A navigable path, independent of the backend that computed it.
#[derive(Clone, Debug, PartialEq, Eq)]
pub struct Route {
    /// The points of the path, in travel order.
    pub geometry: Vec<GeographicCoordinate>,
}

impl Route {
    /// Whether every point of the path lies on the globe.
    pub open spec fn on_globe(&self) -> bool {
        forall|i: int| 0 <= i < self.geometry@.len() ==> (#[trigger] self.geometry@[i]).on_globe()
    }
}

impl View for Route {
    type V = Seq<GeographicCoordinate>;

    open spec fn view(&self) -> Seq<GeographicCoordinate> {
        self.geometry@
    }
}

} // verus!
