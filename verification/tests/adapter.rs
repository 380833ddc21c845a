use routing_adapters::js::encode_request;
use routing_adapters::models::{GeographicCoordinate, Route, UserLocation, Waypoint, WaypointKind};
use routing_adapters::{
    HostRequest, HttpMethod, ParsingError, RouteAdapter, RouteRequest, RouteRequestGenerator,
    RouteResponseParser, RoutingRequestGenerationError,
};
use std::collections::HashMap;
use std::sync::Arc;

struct CountingGenerator;

impl RouteRequestGenerator for CountingGenerator {
    fn generate_request(
        &self,
        _user_location: UserLocation,
        waypoints: Vec<Waypoint>,
    ) -> Result<RouteRequest, RoutingRequestGenerationError> {
        if waypoints.is_empty() {
            return Err(RoutingRequestGenerationError::UnknownRequestGenerationError);
        }
        Ok(RouteRequest::HttpGet {
            url: format!("https://x/route?stops={}", waypoints.len()),
            headers: HashMap::new(),
        })
    }
}

struct LengthParser;

impl RouteResponseParser for LengthParser {
    fn parse_response(&self, response: Vec<u8>) -> Result<Vec<Route>, ParsingError> {
        if response.is_empty() {
            return Err(ParsingError::UnknownParsingError);
        }
        Ok(vec![Route { geometry: Vec::new() }; response.len()])
    }
}

fn origin() -> UserLocation {
    UserLocation {
        coordinates: GeographicCoordinate { lat: 60_534_716, lng: -149_543_469 },
        course_over_ground: None,
    }
}

fn stop(lat: i32, lng: i32) -> Waypoint {
    Waypoint { coordinate: GeographicCoordinate { lat, lng }, kind: WaypointKind::Break }
}

#[test]
fn adapter_hands_the_generators_answer_back() {
    let generator: Arc<dyn RouteRequestGenerator> = Arc::new(CountingGenerator);
    let parser: Arc<dyn RouteResponseParser> = Arc::new(LengthParser);
    let adapter: RouteAdapter = RouteAdapter::new(generator, parser);
    let request = adapter.generate_request(origin(), vec![stop(1, 2), stop(3, 4)]);
    assert_eq!(
        request,
        Ok(RouteRequest::HttpGet {
            url: "https://x/route?stops=2".to_string(),
            headers: HashMap::new(),
        })
    );
    assert_eq!(
        adapter.generate_request(origin(), Vec::new()),
        Err(RoutingRequestGenerationError::UnknownRequestGenerationError)
    );
}

#[test]
fn adapter_hands_the_parsers_answer_back() {
    let adapter = RouteAdapter::new(Arc::new(CountingGenerator), Arc::new(LengthParser));
    assert_eq!(adapter.parse_response(vec![1, 2, 3]).map(|routes| routes.len()), Ok(3));
    assert_eq!(adapter.parse_response(Vec::new()), Err(ParsingError::UnknownParsingError));
}

#[test]
fn posted_request_keeps_its_parts_for_the_host() {
    let mut headers = HashMap::new();
    headers.insert("Content-Type".to_string(), "application/json".to_string());
    let request = RouteRequest::HttpPost {
        url: "https://x/route".to_string(),
        headers: headers.clone(),
        body: b"{}".to_vec(),
    };
    let host: HostRequest = encode_request(Ok(request)).unwrap();
    assert_eq!(host.method, HttpMethod::Post);
    assert_eq!(host.method.tag(), "post");
    assert_eq!(host.url, "https://x/route");
    assert_eq!(host.headers, headers);
    assert_eq!(host.body, Some(b"{}".to_vec()));
}

#[test]
fn fetched_request_has_no_body_for_the_host() {
    let request = RouteRequest::HttpGet { url: "https://x/route".to_string(), headers: HashMap::new() };
    let host = request.into_host();
    assert_eq!(host.method, HttpMethod::Get);
    assert_eq!(host.method.tag(), "get");
    assert_eq!(host.url, "https://x/route");
    assert_eq!(host.headers, HashMap::new());
    assert_eq!(host.body, None);
}
