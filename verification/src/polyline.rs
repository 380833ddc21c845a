//! The polyline encoding of a path: each point is written as the difference
//! to the point before it, latitude first, and each difference as a run of
//! printable characters that carry five bits each.

use crate::models::{on_globe, GeographicCoordinate, MAX_LATITUDE, MAX_LONGITUDE};
use vstd::prelude::*;

verus! {

/// The most characters that one number takes.
pub const MAX_GROUPS: u8 = 7;

/// The number below which every number of `groups` characters lies.
pub open spec fn number_bound(groups: int) -> int {
    if groups <= 0 {
        1
    } else if groups == 1 {
        32
    } else if groups == 2 {
        1_024
    } else if groups == 3 {
        32_768
    } else if groups == 4 {
        1_048_576
    } else if groups == 5 {
        33_554_432
    } else if groups == 6 {
        1_073_741_824
    } else {
        34_359_738_368
    }
}

/// Reads the number that starts at `at`, in at most `groups` characters.
///
/// A character stands for its code less 63, which must lie in 0 to 63. The low
/// five bits of that are the next five bits of the number, least significant
/// first; 32 is added to every character but the last. The result is the
/// number and the index behind its last character, or `None` where the input
/// ends early, holds another character, or takes more characters than allowed.
pub open spec fn read_number(bytes: Seq<u8>, at: int, groups: nat) -> Option<(int, int)>
    decreases groups,
{
    if groups == 0 || at < 0 || at >= bytes.len() || bytes[at] < 63 || bytes[at] > 126 {
        None
    } else if bytes[at] - 63 < 32 {
        Some((bytes[at] - 63, at + 1))
    } else {
        match read_number(bytes, at + 1, (groups - 1) as nat) {
            Some((rest, next)) => Some((bytes[at] - 63 - 32 + 32 * rest, next)),
            None => None,
        }
    }
}

/// The signed number that `number` stands for: the even numbers stand for
/// zero and above, the odd ones for those below.
pub open spec fn unfold_sign(number: int) -> int {
    if number % 2 == 0 {
        number / 2
    } else {
        -(number / 2) - 1
    }
}

/// What one unit of a polyline of the given precision is in millionths of a
/// degree; `None` for a precision of more than six decimals, which a
/// coordinate cannot hold.
pub open spec fn unit_of(precision: u32) -> Option<int> {
    if precision == 0 {
        Some(1_000_000)
    } else if precision == 1 {
        Some(100_000)
    } else if precision == 2 {
        Some(10_000)
    } else if precision == 3 {
        Some(1_000)
    } else if precision == 4 {
        Some(100)
    } else if precision == 5 {
        Some(10)
    } else if precision == 6 {
        Some(1)
    } else {
        None
    }
}

/// Reads the points from `at` to the end of the input. `lat` and `lng` are
/// the point before, in units of the polyline; a unit is `unit` millionths of
/// a degree. The result is `None` where a number cannot be read or a point
/// lies off the globe.
pub open spec fn read_points(bytes: Seq<u8>, at: int, lat: int, lng: int, unit: int) -> Option<
    Seq<GeographicCoordinate>,
>
    decreases bytes.len() - at,
{
    if at >= bytes.len() {
        Some(Seq::empty())
    } else {
        match read_number(bytes, at, MAX_GROUPS as nat) {
            None => None,
            Some((first, middle)) => match read_number(bytes, middle, MAX_GROUPS as nat) {
                None => None,
                Some((second, next)) => {
                    let lat = lat + unfold_sign(first);
                    let lng = lng + unfold_sign(second);
                    if !on_globe(lat * unit, lng * unit) {
                        None
                    } else {
                        proof {
                            lemma_read_number_advances(bytes, at, MAX_GROUPS as nat);
                            lemma_read_number_advances(bytes, middle, MAX_GROUPS as nat);
                        }
                        match read_points(bytes, next, lat, lng, unit) {
                            None => None,
                            Some(rest) => Some(
                                seq![
                                    GeographicCoordinate {
                                        lat: (lat * unit) as i32,
                                        lng: (lng * unit) as i32,
                                    },
                                ] + rest,
                            ),
                        }
                    }
                },
            },
        }
    }
}

/// The path that a polyline of the given precision encodes, or `None` where
/// the bytes are no polyline of points on the globe or the precision is more
/// than six decimals.
pub open spec fn decoded(bytes: Seq<u8>, precision: u32) -> Option<Seq<GeographicCoordinate>> {
    match unit_of(precision) {
        Some(unit) => read_points(bytes, 0, 0, 0, unit),
        None => None,
    }
}

/// A number that can be read ends behind where it starts, within the input,
/// and lies below the bound of its length.
pub proof fn lemma_read_number_advances(bytes: Seq<u8>, at: int, groups: nat)
    requires
        groups <= MAX_GROUPS,
    ensures
        match read_number(bytes, at, groups) {
            Some((number, next)) => at < next <= bytes.len() && 0 <= number < number_bound(
                groups as int,
            ),
            None => true,
        },
    decreases groups,
{
    if groups == 0 || at < 0 || at >= bytes.len() || bytes[at] < 63 || bytes[at] > 126 {
    } else if bytes[at] - 63 < 32 {
    } else {
        lemma_read_number_advances(bytes, at + 1, (groups - 1) as nat);
    }
}

fn take_number(bytes: &[u8], at: usize, groups: u8) -> (found: Option<(i64, usize)>)
    requires
        groups <= MAX_GROUPS,
    ensures
        match found {
            Some((number, next)) => {
                &&& read_number(bytes@, at as int, groups as nat) == Some(
                    (number as int, next as int),
                )
                &&& at < next <= bytes@.len()
                &&& 0 <= number < number_bound(groups as int)
            },
            None => read_number(bytes@, at as int, groups as nat) is None,
        },
    decreases groups,
{
    if groups == 0 || at >= bytes.len() {
        return None;
    }
    let byte = bytes[at];
    if byte < 63 || byte > 126 {
        return None;
    }
    let group: i64 = (byte - 63) as i64;
    if group < 32 {
        Some((group, at + 1))
    } else {
        match take_number(bytes, at + 1, groups - 1) {
            Some((rest, next)) => Some((group - 32 + 32 * rest, next)),
            None => None,
        }
    }
}

fn unfolded(number: i64) -> (signed: i64)
    requires
        0 <= number < number_bound(MAX_GROUPS as int),
    ensures
        signed == unfold_sign(number as int),
        -number_bound(MAX_GROUPS as int) <= signed < number_bound(MAX_GROUPS as int),
{
    if number % 2 == 0 {
        number / 2
    } else {
        -(number / 2) - 1
    }
}

fn unit_for(precision: u32) -> (unit: Option<i64>)
    ensures
        match unit {
            Some(unit) => unit_of(precision) == Some(unit as int) && 1 <= unit <= 1_000_000,
            None => unit_of(precision) is None,
        },
{
    if precision == 0 {
        Some(1_000_000)
    } else if precision == 1 {
        Some(100_000)
    } else if precision == 2 {
        Some(10_000)
    } else if precision == 3 {
        Some(1_000)
    } else if precision == 4 {
        Some(100)
    } else if precision == 5 {
        Some(10)
    } else if precision == 6 {
        Some(1)
    } else {
        None
    }
}

/// What is read in all once `done` has been read and `rest` is what follows.
spec fn joined(done: Seq<GeographicCoordinate>, rest: Option<Seq<GeographicCoordinate>>) -> Option<
    Seq<GeographicCoordinate>,
> {
    match rest {
        Some(rest) => Some(done + rest),
        None => None,
    }
}

/// Decodes a polyline of the given precision into the points of its path, in
/// millionths of a degree. Every point of a path that is returned lies on the
/// globe.
pub fn decode(bytes: &[u8], precision: u32) -> (path: Option<Vec<GeographicCoordinate>>)
    ensures
        match path {
            Some(points) => decoded(bytes@, precision) == Some(points@),
            None => decoded(bytes@, precision) is None,
        },
        path matches Some(points) ==> forall|i: int|
            0 <= i < points@.len() ==> (#[trigger] points@[i]).on_globe(),
{
    let unit = match unit_for(precision) {
        Some(unit) => unit,
        None => {
            return None;
        },
    };
    let mut points: Vec<GeographicCoordinate> = Vec::new();
    let mut at: usize = 0;
    let mut lat: i64 = 0;
    let mut lng: i64 = 0;
    while at < bytes.len()
        invariant
            unit_of(precision) == Some(unit as int),
            1 <= unit <= 1_000_000,
            -MAX_LATITUDE <= lat <= MAX_LATITUDE,
            -MAX_LONGITUDE <= lng <= MAX_LONGITUDE,
            forall|i: int| 0 <= i < points@.len() ==> (#[trigger] points@[i]).on_globe(),
            read_points(bytes@, 0, 0, 0, unit as int) == joined(
                points@,
                read_points(bytes@, at as int, lat as int, lng as int, unit as int),
            ),
        decreases bytes.len() - at,
    {
        let (first, middle) = match take_number(bytes, at, MAX_GROUPS) {
            Some(found) => found,
            None => {
                return None;
            },
        };
        let (second, next) = match take_number(bytes, middle, MAX_GROUPS) {
            Some(found) => found,
            None => {
                return None;
            },
        };
        let new_lat = lat + unfolded(first);
        let new_lng = lng + unfolded(second);
        assert(-3_000_000_000_000_000_000 <= new_lat * unit <= 3_000_000_000_000_000_000
            && -3_000_000_000_000_000_000 <= new_lng * unit <= 3_000_000_000_000_000_000)
            by (nonlinear_arith)
            requires
                -40_000_000_000 <= new_lat <= 40_000_000_000,
                -40_000_000_000 <= new_lng <= 40_000_000_000,
                1 <= unit <= 1_000_000,
        ;
        let scaled_lat = new_lat * unit;
        let scaled_lng = new_lng * unit;
        if scaled_lat < -(MAX_LATITUDE as i64) || scaled_lat > MAX_LATITUDE as i64 || scaled_lng < -(
        MAX_LONGITUDE as i64) || scaled_lng > MAX_LONGITUDE as i64 {
            return None;
        }
        assert(-MAX_LATITUDE <= new_lat <= MAX_LATITUDE && -MAX_LONGITUDE <= new_lng
            <= MAX_LONGITUDE) by (nonlinear_arith)
            requires
                -MAX_LATITUDE <= new_lat * unit <= MAX_LATITUDE,
                -MAX_LONGITUDE <= new_lng * unit <= MAX_LONGITUDE,
                1 <= unit,
        ;
        let point = GeographicCoordinate { lat: scaled_lat as i32, lng: scaled_lng as i32 };
        proof {
            let rest = read_points(bytes@, next as int, new_lat as int, new_lng as int, unit as int);
            if rest is Some {
                assert(points@ + (seq![point] + rest->0) == points@.push(point) + rest->0);
            }
        }
        points.push(point);
        at = next;
        lat = new_lat;
        lng = new_lng;
    }
    Some(points)
}

} // verus!
