//! The adapter as a host sees it that cannot hold the library's own types,
//! such as a JavaScript runtime.
//!
//! Each operation takes what the host handed over, decoded into the library's
//! values or else the reason why it could not be decoded; asks the adapter;
//! and encodes the answer: a request in one shape whatever the generator
//! chose, and every failure as the text that describes it.

use crate::adapter::{RouteAdapter, VALHALLA_POLYLINE_PRECISION};
use crate::error::{InstantiationError, ParsingError, ParsingErrorView, RoutingRequestGenerationError};
use crate::json::json_document;
use crate::models::{GeographicCoordinate, Route, UserLocation, Waypoint};
use crate::osrm::{document_paths, paths_of, routes_outcome_view, OsrmResponseParser};
use crate::request::{request_outcome_view, HostRequest, HostRequestView, RouteRequest, RouteRequestView};
use crate::valhalla::ValhallaHttpRequestGenerator;
use vstd::prelude::*;
use vstd::utf8::encode_utf8;

verus! {

/// What a host is handed for a generator's answer: the request in the shape
/// for a host, or the text of the error.
pub open spec fn encoded_request(
    outcome: Result<RouteRequestView, RoutingRequestGenerationError>,
) -> Result<HostRequestView, Seq<char>> {
    match outcome {
        Ok(request) => Ok(request.for_host()),
        Err(error) => Err(error.text()),
    }
}

/// What a host is handed for a parser's answer: the routes, or the text of
/// the error.
pub open spec fn encoded_routes(
    outcome: Result<Seq<Seq<GeographicCoordinate>>, ParsingErrorView>,
) -> Result<Seq<Seq<GeographicCoordinate>>, Seq<char>> {
    match outcome {
        Ok(paths) => Ok(paths),
        Err(error) => Err(error.text()),
    }
}

/// What a host is handed when it asks for a request. What it handed over is
/// looked at in order, the position first: the first that could not be
/// decoded ends the call with its reason. Otherwise the generator is asked
/// and its answer encoded.
pub open spec fn requested(
    generator: &ValhallaHttpRequestGenerator,
    user_location: Result<UserLocation, String>,
    waypoints: Result<Vec<Waypoint>, String>,
) -> Result<HostRequestView, Seq<char>> {
    match user_location {
        Ok(user_location) => match waypoints {
            Ok(waypoints) => encoded_request(
                generator.planned_request(user_location, waypoints@),
            ),
            Err(reason) => Err(reason@),
        },
        Err(reason) => Err(reason@),
    }
}

/// Whether `message` is the text of a parse error, whatever its reason.
pub open spec fn is_parse_error_text(message: Seq<char>) -> bool {
    exists|reason: Seq<char>| message == (ParsingErrorView::ParseError { error: reason }).text()
}

/// A request or a text, as mathematical values.
pub open spec fn host_request_outcome_view(outcome: Result<HostRequest, String>) -> Result<
    HostRequestView,
    Seq<char>,
> {
    match outcome {
        Ok(request) => Ok(request@),
        Err(message) => Err(message@),
    }
}

/// Routes or a text, as mathematical values.
pub open spec fn host_routes_outcome_view(outcome: Result<Vec<Route>, String>) -> Result<
    Seq<Seq<GeographicCoordinate>>,
    Seq<char>,
> {
    match outcome {
        Ok(routes) => Ok(paths_of(routes@)),
        Err(message) => Err(message@),
    }
}

/// Encodes a generator's answer for a host.
pub fn encode_request(outcome: Result<RouteRequest, RoutingRequestGenerationError>) -> (encoded:
    Result<HostRequest, String>)
    ensures
        host_request_outcome_view(encoded) == encoded_request(request_outcome_view(outcome)),
        encoded matches Ok(request) ==> request@.well_formed(),
{
    match outcome {
        Ok(request) => Ok(request.into_host()),
        Err(error) => Err(error.message()),
    }
}

/// Encodes a parser's answer for a host.
pub fn encode_routes(outcome: Result<Vec<Route>, ParsingError>) -> (encoded: Result<
    Vec<Route>,
    String,
>)
    ensures
        host_routes_outcome_view(encoded) == encoded_routes(routes_outcome_view(outcome)),
{
    match outcome {
        Ok(routes) => Ok(routes),
        Err(error) => Err(error.message()),
    }
}

/// The adapter for a Valhalla service, for a host that cannot hold the
/// library's own types.
pub struct JsRouteAdapter(RouteAdapter<ValhallaHttpRequestGenerator, OsrmResponseParser>);

impl JsRouteAdapter {
    /// The adapter that does the work.
    pub closed spec fn adapter(&self) -> RouteAdapter<
        ValhallaHttpRequestGenerator,
        OsrmResponseParser,
    > {
        self.0
    }

    /// Makes the adapter for a Valhalla service that is reached over HTTP, the
    /// one pairing that a host can ask for. Costing options that are no JSON
    /// document are refused, with the text of that error.
    pub fn new(endpoint_url: String, profile: String, costing_options_json: Option<String>) -> (outcome:
        Result<JsRouteAdapter, String>)
        ensures
            match outcome {
                Ok(wrapper) => {
                    &&& wrapper.adapter().generator().endpoint_url() == endpoint_url@
                    &&& wrapper.adapter().generator().profile() == profile@
                    &&& wrapper.adapter().generator().costing_options_json()
                        == match costing_options_json {
                        Some(options) => Some(options@),
                        None => None,
                    }
                    &&& wrapper.adapter().generator().well_formed()
                    &&& wrapper.adapter().parser().polyline_precision() == VALHALLA_POLYLINE_PRECISION
                },
                Err(message) => {
                    &&& message@ == InstantiationError::JsonError.text()
                    &&& costing_options_json matches Some(options)
                    &&& json_document(encode_utf8(options@)) is None
                },
            },
    {
        match RouteAdapter::new_valhalla_http(endpoint_url, profile, costing_options_json) {
            Ok(adapter) => Ok(JsRouteAdapter(adapter)),
            Err(error) => Err(error.message()),
        }
    }

    /// Asks the generator for the request and encodes its answer: a request
    /// in the shape for a host, which is well formed, or the text of the
    /// generator's error. Where the position or the waypoints could not be
    /// decoded, the generator is not asked and the answer is the reason.
    pub fn generate_request(
        &self,
        user_location: Result<UserLocation, String>,
        waypoints: Result<Vec<Waypoint>, String>,
    ) -> (outcome: Result<HostRequest, String>)
        ensures
            host_request_outcome_view(outcome) == requested(
                self.adapter().generator(),
                user_location,
                waypoints,
            ),
            outcome matches Ok(request) ==> request@.well_formed(),
    {
        let user_location = match user_location {
            Ok(user_location) => user_location,
            Err(reason) => {
                return Err(reason);
            },
        };
        let waypoints = match waypoints {
            Ok(waypoints) => waypoints,
            Err(reason) => {
                return Err(reason);
            },
        };
        encode_request(self.0.generate_request(user_location, waypoints))
    }

    /// Hands the response to the parser and encodes its answer: the routes, or
    /// the text of the parser's error.
    pub fn parse_response(&self, response: Vec<u8>) -> (outcome: Result<Vec<Route>, String>)
        ensures
            match json_document(response@) {
                Some(document) => host_routes_outcome_view(outcome) == encoded_routes(
                    document_paths(document, self.adapter().parser().polyline_precision()),
                ),
                None => outcome matches Err(message) && is_parse_error_text(message@),
            },
            response@.len() == 0 ==> (outcome matches Err(message) && is_parse_error_text(
                message@,
            )),
    {
        let answered = self.0.parse_response(response);
        proof {
            if json_document(response@) is None || response@.len() == 0 {
                assert(answered matches Err(ParsingError::ParseError { error }) && answered->Err_0@
                    == (ParsingErrorView::ParseError { error: error@ }));
            }
        }
        encode_routes(answered)
    }
}

} // verus!
