//! Requests for Valhalla's route service, posted over HTTP.
//!
//! Valhalla is asked to answer in the OSRM format, which is why this generator
//! goes with the parser of [`crate::osrm`].

use crate::adapter::RouteRequestGenerator;
use crate::error::{InstantiationError, RoutingRequestGenerationError};
use crate::json::{json_document, json_quoted, parse_document, quote};
use crate::models::{GeographicCoordinate, UserLocation, Waypoint, WaypointKind};
use crate::request::{request_outcome_view, RouteRequest, RouteRequestView};
use std::collections::HashMap;
use vstd::prelude::*;
use vstd::string::{StrSliceExecFns, StringExecFns};
use vstd::utf8::encode_utf8;

verus! {

/// The numeral of one decimal digit.
pub open spec fn digit_text(digit: int) -> Seq<char> {
    if digit == 0 {
        "0"@
    } else if digit == 1 {
        "1"@
    } else if digit == 2 {
        "2"@
    } else if digit == 3 {
        "3"@
    } else if digit == 4 {
        "4"@
    } else if digit == 5 {
        "5"@
    } else if digit == 6 {
        "6"@
    } else if digit == 7 {
        "7"@
    } else if digit == 8 {
        "8"@
    } else {
        "9"@
    }
}

/// A natural number in decimal, without leading zeros.
pub open spec fn number_text(number: nat) -> Seq<char>
    decreases number,
{
    if number < 10 {
        digit_text(number as int)
    } else {
        number_text(number / 10) + digit_text((number % 10) as int)
    }
}

/// A number below a million in exactly six decimal digits.
pub open spec fn six_digit_text(number: nat) -> Seq<char> {
    digit_text((number / 100_000 % 10) as int) + digit_text((number / 10_000 % 10) as int)
        + digit_text((number / 1_000 % 10) as int) + digit_text((number / 100 % 10) as int)
        + digit_text((number / 10 % 10) as int) + digit_text((number % 10) as int)
}

/// An angle given in millionths of a degree, written in degrees: a minus sign
/// if it is negative, the whole degrees, a point, and six decimals.
pub open spec fn degrees_text(millionths: int) -> Seq<char> {
    let size = if millionths < 0 {
        -millionths
    } else {
        millionths
    };
    let sign = if millionths < 0 {
        "-"@
    } else {
        Seq::<char>::empty()
    };
    sign + number_text((size / 1_000_000) as nat) + "."@ + six_digit_text(
        (size % 1_000_000) as nat,
    )
}

/// The two coordinates of a location, as members of a JSON object.
pub open spec fn coordinate_text(coordinate: GeographicCoordinate) -> Seq<char> {
    "\"lat\":"@ + degrees_text(coordinate.lat as int) + ",\"lon\":"@ + degrees_text(
        coordinate.lng as int,
    )
}

/// The location that the route starts from: where the traveller is, and the
/// heading if the course is known.
pub open spec fn origin_text(user_location: UserLocation) -> Seq<char> {
    let heading = match user_location.course_over_ground {
        Some(course) => ",\"heading\":"@ + number_text(course.degrees as nat),
        None => Seq::<char>::empty(),
    };
    "{"@ + coordinate_text(user_location.coordinates) + heading + "}"@
}

/// The location of a waypoint, with the way the route is to treat it.
pub open spec fn waypoint_text(waypoint: Waypoint) -> Seq<char> {
    let kind = match waypoint.kind {
        WaypointKind::Break => ",\"type\":\"break\"}"@,
        WaypointKind::Via => ",\"type\":\"via\"}"@,
    };
    "{"@ + coordinate_text(waypoint.coordinate) + kind
}

/// The locations of the waypoints in order, each after a comma.
pub open spec fn waypoints_text(waypoints: Seq<Waypoint>) -> Seq<char>
    decreases waypoints.len(),
{
    if waypoints.len() == 0 {
        Seq::<char>::empty()
    } else {
        waypoints_text(waypoints.drop_last()) + ","@ + waypoint_text(waypoints.last())
    }
}

/// The JSON document that Valhalla is sent: the answer is asked for in the
/// OSRM format, `quoted_profile` names the costing model as a JSON string
/// literal, `costing_options` is a JSON document of its own, and the locations
/// are the traveller's position followed by the waypoints.
pub open spec fn request_text(
    quoted_profile: Seq<char>,
    costing_options: Seq<char>,
    user_location: UserLocation,
    waypoints: Seq<Waypoint>,
) -> Seq<char> {
    "{\"format\":\"osrm\",\"costing\":"@ + quoted_profile + ",\"costing_options\":"@
        + costing_options + ",\"locations\":["@ + origin_text(user_location) + waypoints_text(
        waypoints,
    ) + "]}"@
}

/// The headers that hold `value` under `name` and nothing else.
pub open spec fn one_header(name: Seq<char>, value: Seq<char>) -> Map<Seq<char>, Seq<char>> {
    Map::<Seq<char>, Seq<char>>::empty().insert(name, value)
}

/// The headers of every request: the body is JSON.
pub open spec fn request_headers() -> Map<Seq<char>, Seq<char>> {
    one_header("Content-Type"@, "application/json"@)
}

/// Calls `HashMap::from` with an array of one pair: a map that holds `value`
/// under `name` and nothing else.
#[verifier::external_body]
fn single_header(name: &str, value: &str) -> (headers: HashMap<String, String>)
    ensures
        headers.deep_view() == one_header(name@, value@),
{
    HashMap::from([(name.to_string(), value.to_string())])
}

fn digit_str(digit: u32) -> (s: &'static str)
    requires
        digit < 10,
    ensures
        s@ == digit_text(digit as int),
{
    if digit == 0 {
        "0"
    } else if digit == 1 {
        "1"
    } else if digit == 2 {
        "2"
    } else if digit == 3 {
        "3"
    } else if digit == 4 {
        "4"
    } else if digit == 5 {
        "5"
    } else if digit == 6 {
        "6"
    } else if digit == 7 {
        "7"
    } else if digit == 8 {
        "8"
    } else {
        "9"
    }
}

fn append_number(out: &mut String, number: u32)
    ensures
        final(out)@ == old(out)@ + number_text(number as nat),
    decreases number,
{
    if number >= 10 {
        append_number(out, number / 10);
    }
    out.append(digit_str(number % 10));
}

fn append_six_digits(out: &mut String, number: u32)
    requires
        number < 1_000_000,
    ensures
        final(out)@ == old(out)@ + six_digit_text(number as nat),
{
    out.append(digit_str(number / 100_000 % 10));
    out.append(digit_str(number / 10_000 % 10));
    out.append(digit_str(number / 1_000 % 10));
    out.append(digit_str(number / 100 % 10));
    out.append(digit_str(number / 10 % 10));
    out.append(digit_str(number % 10));
}

fn append_degrees(out: &mut String, millionths: i32)
    ensures
        final(out)@ == old(out)@ + degrees_text(millionths as int),
{
    let size: u32 = if millionths < 0 {
        out.append("-");
        (-(millionths as i64)) as u32
    } else {
        millionths as u32
    };
    append_number(out, size / 1_000_000);
    out.append(".");
    append_six_digits(out, size % 1_000_000);
}

fn append_coordinate(out: &mut String, coordinate: GeographicCoordinate)
    ensures
        final(out)@ == old(out)@ + coordinate_text(coordinate),
{
    out.append("\"lat\":");
    append_degrees(out, coordinate.lat);
    out.append(",\"lon\":");
    append_degrees(out, coordinate.lng);
}

fn append_origin(out: &mut String, user_location: UserLocation)
    ensures
        final(out)@ == old(out)@ + origin_text(user_location),
{
    out.append("{");
    append_coordinate(out, user_location.coordinates);
    match user_location.course_over_ground {
        Some(course) => {
            out.append(",\"heading\":");
            append_number(out, course.degrees as u32);
        },
        None => {},
    }
    out.append("}");
}

fn append_waypoint(out: &mut String, waypoint: Waypoint)
    ensures
        final(out)@ == old(out)@ + waypoint_text(waypoint),
{
    out.append("{");
    append_coordinate(out, waypoint.coordinate);
    match waypoint.kind {
        WaypointKind::Break => out.append(",\"type\":\"break\"}"),
        WaypointKind::Via => out.append(",\"type\":\"via\"}"),
    }
}

fn append_waypoints(out: &mut String, waypoints: &Vec<Waypoint>)
    ensures
        final(out)@ == old(out)@ + waypoints_text(waypoints@),
{
    let mut done: usize = 0;
    while done < waypoints.len()
        invariant
            done <= waypoints.len(),
            out@ == old(out)@ + waypoints_text(waypoints@.take(done as int)),
        decreases waypoints.len() - done,
    {
        proof {
            assert(waypoints@.take(done + 1).drop_last() == waypoints@.take(done as int));
        }
        out.append(",");
        append_waypoint(out, waypoints[done]);
        done = done + 1;
    }
    proof {
        assert(waypoints@.take(done as int) == waypoints@);
    }
}

/// A generator of requests for one Valhalla service: the address that it
/// listens at, the costing model to route with, and the options of that model.
pub struct ValhallaHttpRequestGenerator {
    endpoint_url: String,
    profile: String,
    costing_options_json: Option<String>,
}

impl ValhallaHttpRequestGenerator {
    /// The address that requests are posted to.
    pub closed spec fn endpoint_url(&self) -> Seq<char> {
        self.endpoint_url@
    }

    /// The name of the costing model.
    pub closed spec fn profile(&self) -> Seq<char> {
        self.profile@
    }

    /// The costing options, as the JSON text that they were given in.
    pub closed spec fn costing_options_json(&self) -> Option<Seq<char>> {
        match self.costing_options_json {
            Some(options) => Some(options@),
            None => None,
        }
    }

    /// The costing options that a request carries: those that were given, or
    /// an object without members.
    pub open spec fn costing_options_text(&self) -> Seq<char> {
        match self.costing_options_json() {
            Some(options) => options,
            None => "{}"@,
        }
    }

    /// Costing options, where there are any, are a JSON document.
    pub open spec fn well_formed(&self) -> bool {
        match self.costing_options_json() {
            Some(options) => json_document(encode_utf8(options)) is Some,
            None => true,
        }
    }

    /// What the generator answers a call with.
    ///
    /// Without a waypoint there is no route to ask for. Otherwise the request
    /// is posted to the service's address with the document of
    /// [`request_text`] as its body, unless the name of the profile cannot be
    /// written as JSON.
    pub open spec fn planned_request(
        &self,
        user_location: UserLocation,
        waypoints: Seq<Waypoint>,
    ) -> Result<RouteRequestView, RoutingRequestGenerationError> {
        if waypoints.len() == 0 {
            Err(RoutingRequestGenerationError::NotEnoughWaypoints)
        } else {
            match json_quoted(self.profile()) {
                Some(quoted_profile) => Ok(
                    RouteRequestView::HttpPost {
                        url: self.endpoint_url(),
                        headers: request_headers(),
                        body: encode_utf8(
                            request_text(
                                quoted_profile,
                                self.costing_options_text(),
                                user_location,
                                waypoints,
                            ),
                        ),
                    },
                ),
                None => Err(RoutingRequestGenerationError::JsonError),
            }
        }
    }

    /// Makes a generator for the service at `endpoint_url` that routes with
    /// `profile`. Costing options are given as the text of a JSON document;
    /// text that is no such document is refused, and nothing else is.
    pub fn with_costing_options_json(
        endpoint_url: String,
        profile: String,
        costing_options_json: Option<String>,
    ) -> (outcome: Result<Self, InstantiationError>)
        ensures
            match outcome {
                Ok(generator) => {
                    &&& generator.endpoint_url() == endpoint_url@
                    &&& generator.profile() == profile@
                    &&& generator.costing_options_json() == match costing_options_json {
                        Some(options) => Some(options@),
                        None => None,
                    }
                    &&& generator.well_formed()
                },
                Err(error) => {
                    &&& error == InstantiationError::JsonError
                    &&& costing_options_json matches Some(options)
                    &&& json_document(encode_utf8(options@)) is None
                },
            },
    {
        match &costing_options_json {
            Some(options) => {
                match parse_document(options.as_str().as_bytes()) {
                    Ok(_) => {},
                    Err(_) => {
                        return Err(InstantiationError::JsonError);
                    },
                }
            },
            None => {},
        }
        Ok(ValhallaHttpRequestGenerator { endpoint_url, profile, costing_options_json })
    }
}

/// Given a waypoint, the generator either describes a well-formed request,
/// one that is posted and has a body, or fails to write the profile as JSON.
pub proof fn law_request_or_generation_error(
    generator: ValhallaHttpRequestGenerator,
    user_location: UserLocation,
    waypoints: Seq<Waypoint>,
)
    requires
        waypoints.len() > 0,
    ensures
        match generator.planned_request(user_location, waypoints) {
            Ok(request) => request is HttpPost && request.for_host().well_formed(),
            Err(error) => error == RoutingRequestGenerationError::JsonError,
        },
{
}

impl RouteRequestGenerator for ValhallaHttpRequestGenerator {
    fn generate_request(&self, user_location: UserLocation, waypoints: Vec<Waypoint>) -> (outcome:
        Result<RouteRequest, RoutingRequestGenerationError>)
        ensures
            request_outcome_view(outcome) == self.planned_request(user_location, waypoints@),
    {
        if waypoints.len() == 0 {
            return Err(RoutingRequestGenerationError::NotEnoughWaypoints);
        }
        let quoted_profile = match quote(self.profile.as_str()) {
            Ok(quoted) => quoted,
            Err(_) => {
                return Err(RoutingRequestGenerationError::JsonError);
            },
        };
        let mut text = String::from_str("{\"format\":\"osrm\",\"costing\":");
        text.append(quoted_profile.as_str());
        text.append(",\"costing_options\":");
        match &self.costing_options_json {
            Some(options) => text.append(options.as_str()),
            None => text.append("{}"),
        }
        text.append(",\"locations\":[");
        append_origin(&mut text, user_location);
        append_waypoints(&mut text, &waypoints);
        text.append("]}");
        let body = text.as_str().as_bytes_vec();
        let headers = single_header("Content-Type", "application/json");
        Ok(RouteRequest::HttpPost { url: self.endpoint_url.clone(), headers, body })
    }
}

} // verus!
