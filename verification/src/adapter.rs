//! The two capabilities that a backend is reached through, and the adapter
//! that holds one of each.

use crate::error::{InstantiationError, ParsingError, RoutingRequestGenerationError};
use crate::json::json_document;
use crate::models::{Route, UserLocation, Waypoint};
use crate::osrm::{routes_outcome_view, OsrmResponseParser};
use crate::request::{request_outcome_view, RouteRequest};
use crate::valhalla::ValhallaHttpRequestGenerator;
use std::sync::Arc;
use vstd::prelude::*;
use vstd::utf8::encode_utf8;

verus! {

/// Anything that can describe the request a backend is asked for a route with.
///
/// Every backend has settings of its own (a profile, units, costing options).
/// An implementation takes them when it is made, so that this interface can
/// stay the same for all of them. It may live in this library or outside it.
/// It must be usable from several threads at once, and it never sends
/// anything itself.
pub trait RouteRequestGenerator: Send + Sync {
    /// Describes the request for a route from `user_location` by way of
    /// `waypoints`. Most backends take the waypoints in order; one that
    /// optimises the order need not.
    fn generate_request(
        &self,
        user_location: UserLocation,
        waypoints: Vec<Waypoint>,
    ) -> Result<RouteRequest, RoutingRequestGenerationError>;
}

/// Anything that can read routes out of what a backend answered.
///
/// The answer comes as bytes, whatever its format. An implementation returns
/// complete routes or an error; it must be usable from several threads at once.
pub trait RouteResponseParser: Send + Sync {
    /// Reads the routes out of `response`.
    fn parse_response(&self, response: Vec<u8>) -> Result<Vec<Route>, ParsingError>;
}

/// One generator and one parser for the same backend, behind one surface.
///
/// The adapter does not know whether its two halves fit each other: whoever
/// calls [`RouteAdapter::new`] answers for that. Both halves are fixed when
/// the adapter is made and are only ever read, so one adapter serves any
/// number of callers.
///
/// Written without parameters, the type holds any generator and any parser
/// behind trait objects.
pub struct RouteAdapter<
    G: RouteRequestGenerator + ?Sized = dyn RouteRequestGenerator,
    P: RouteResponseParser + ?Sized = dyn RouteResponseParser,
> {
    request_generator: Arc<G>,
    response_parser: Arc<P>,
}

impl<G: RouteRequestGenerator + ?Sized, P: RouteResponseParser + ?Sized> RouteAdapter<G, P> {
    /// The generator that the adapter holds.
    pub closed spec fn generator(&self) -> &G {
        &*self.request_generator
    }

    /// The parser that the adapter holds.
    pub closed spec fn parser(&self) -> &P {
        &*self.response_parser
    }

    /// Binds a generator and a parser, whatever they are.
    pub fn new(request_generator: Arc<G>, response_parser: Arc<P>) -> (adapter: Self)
        ensures
            adapter.generator() == &*request_generator,
            adapter.parser() == &*response_parser,
    {
        RouteAdapter { request_generator, response_parser }
    }

    /// Hands the inputs to the generator and its answer back, unchanged:
    /// whatever the generator promises of its result holds of this one. The
    /// answer is an error or a request that is well formed.
    pub fn generate_request(&self, user_location: UserLocation, waypoints: Vec<Waypoint>) -> (outcome:
        Result<RouteRequest, RoutingRequestGenerationError>)
        ensures
            call_ensures(
                G::generate_request,
                (self.generator(), user_location, waypoints),
                outcome,
            ),
            outcome matches Ok(request) ==> request@.for_host().well_formed(),
    {
        self.request_generator.generate_request(user_location, waypoints)
    }

    /// Hands the response to the parser and its answer back, unchanged:
    /// whatever the parser promises of its result holds of this one.
    pub fn parse_response(&self, response: Vec<u8>) -> (outcome: Result<Vec<Route>, ParsingError>)
        ensures
            call_ensures(P::parse_response, (self.parser(), response), outcome),
    {
        self.response_parser.parse_response(response)
    }
}

/// The number of decimals in the polylines that Valhalla answers with.
pub const VALHALLA_POLYLINE_PRECISION: u32 = 6;

impl RouteAdapter<ValhallaHttpRequestGenerator, OsrmResponseParser> {
    /// Makes the adapter for a Valhalla service that is reached over HTTP: a
    /// generator for the service at `endpoint_url` with the given profile and
    /// costing options, and the parser that reads its answers.
    ///
    /// The two halves are known to fit. The only failure is that of costing
    /// options that are no JSON document; then no adapter is made.
    pub fn new_valhalla_http(
        endpoint_url: String,
        profile: String,
        costing_options_json: Option<String>,
    ) -> (outcome: Result<Self, InstantiationError>)
        ensures
            match outcome {
                Ok(adapter) => {
                    &&& adapter.generator().endpoint_url() == endpoint_url@
                    &&& adapter.generator().profile() == profile@
                    &&& adapter.generator().costing_options_json() == match costing_options_json {
                        Some(options) => Some(options@),
                        None => None,
                    }
                    &&& adapter.generator().well_formed()
                    &&& adapter.parser().polyline_precision() == VALHALLA_POLYLINE_PRECISION
                },
                Err(error) => {
                    &&& error == InstantiationError::JsonError
                    &&& costing_options_json matches Some(options)
                    &&& json_document(encode_utf8(options@)) is None
                },
            },
    {
        let request_generator = match ValhallaHttpRequestGenerator::with_costing_options_json(
            endpoint_url,
            profile,
            costing_options_json,
        ) {
            Ok(generator) => generator,
            Err(error) => {
                return Err(error);
            },
        };
        let response_parser = OsrmResponseParser::new(VALHALLA_POLYLINE_PRECISION);
        Ok(RouteAdapter::new(Arc::new(request_generator), Arc::new(response_parser)))
    }
}

/// Asked twice for the same route, the adapter for Valhalla answers alike:
/// any two answers to the same position and to waypoints that are equal one by
/// one are equal in content, be they requests or errors. Who asks, when, and
/// what the adapter was asked in between make no difference.
pub proof fn law_generate_request_is_idempotent(
    adapter: RouteAdapter<ValhallaHttpRequestGenerator, OsrmResponseParser>,
    user_location: UserLocation,
    first_waypoints: Vec<Waypoint>,
    second_waypoints: Vec<Waypoint>,
    first: Result<RouteRequest, RoutingRequestGenerationError>,
    second: Result<RouteRequest, RoutingRequestGenerationError>,
)
    requires
        first_waypoints@ == second_waypoints@,
        call_ensures(
            ValhallaHttpRequestGenerator::generate_request,
            (adapter.generator(), user_location, first_waypoints),
            first,
        ),
        call_ensures(
            ValhallaHttpRequestGenerator::generate_request,
            (adapter.generator(), user_location, second_waypoints),
            second,
        ),
    ensures
        request_outcome_view(first) == request_outcome_view(second),
{
}

/// Handed the same response twice, the adapter for Valhalla answers alike.
/// Of a response that is a JSON document, any two answers are equal in
/// content, be they routes or errors; of any other, both are parse errors.
/// Who asks, when, and what the adapter was asked in between make no
/// difference.
pub proof fn law_parse_response_depends_on_response(
    adapter: RouteAdapter<ValhallaHttpRequestGenerator, OsrmResponseParser>,
    first_response: Vec<u8>,
    second_response: Vec<u8>,
    first: Result<Vec<Route>, ParsingError>,
    second: Result<Vec<Route>, ParsingError>,
)
    requires
        first_response@ == second_response@,
        call_ensures(
            OsrmResponseParser::parse_response,
            (adapter.parser(), first_response),
            first,
        ),
        call_ensures(
            OsrmResponseParser::parse_response,
            (adapter.parser(), second_response),
            second,
        ),
    ensures
        match json_document(first_response@) {
            Some(_) => routes_outcome_view(first) == routes_outcome_view(second),
            None => {
                &&& first matches Err(ParsingError::ParseError { .. })
                &&& second matches Err(ParsingError::ParseError { .. })
            },
        },
{
}

} // verus!
