use routing_adapters::models::{GeographicCoordinate, Route};
use routing_adapters::osrm::OsrmResponseParser;
use routing_adapters::{ParsingError, RouteAdapter, RouteResponseParser};

fn at(lat: i32, lng: i32) -> GeographicCoordinate {
    GeographicCoordinate { lat, lng }
}

fn parsed(response: &str) -> Result<Vec<Route>, ParsingError> {
    OsrmResponseParser::new(6).parse_response(response.as_bytes().to_vec())
}

fn unreadable(reason: &str) -> Result<Vec<Route>, ParsingError> {
    Err(ParsingError::ParseError { error: reason.to_string() })
}

#[test]
fn routes_are_read_in_order() {
    let response = "{\"code\":\"Ok\",\"routes\":[{\"geometry\":\"??@A\",\"distance\":12.5},{\"geometry\":\"\"},{\"geometry\":\"AA\"}],\"waypoints\":[]}";
    assert_eq!(
        parsed(response),
        Ok(vec![
            Route { geometry: vec![at(0, 0), at(-1, 1)] },
            Route { geometry: Vec::new() },
            Route { geometry: vec![at(1, 1)] },
        ])
    );
}

#[test]
fn polylines_are_read_with_the_parsers_precision() {
    let response = "{\"routes\":[{\"geometry\":\"_p~iF~ps|U_ulLnnqC_mqNvxq`@\"}],\"code\":\"Ok\"}";
    let five = OsrmResponseParser::new(5).parse_response(response.as_bytes().to_vec());
    assert_eq!(
        five,
        Ok(vec![Route {
            geometry: vec![
                at(38_500_000, -120_200_000),
                at(40_700_000, -120_950_000),
                at(43_252_000, -126_453_000),
            ],
        }])
    );
    let six = OsrmResponseParser::new(6).parse_response(response.as_bytes().to_vec());
    assert_eq!(
        six,
        Ok(vec![Route {
            geometry: vec![
                at(3_850_000, -12_020_000),
                at(4_070_000, -12_095_000),
                at(4_325_200, -12_645_300),
            ],
        }])
    );
    let seven = OsrmResponseParser::new(7).parse_response(response.as_bytes().to_vec());
    assert_eq!(seven, unreadable("invalid polyline"));
}

#[test]
fn no_routes_are_no_routes() {
    assert_eq!(parsed("{\"code\":\"Ok\",\"routes\":[]}"), Ok(Vec::new()));
}

#[test]
fn another_status_is_reported_with_its_code() {
    assert_eq!(
        parsed("{\"code\":\"NoRoute\",\"message\":\"Impossible route between points\"}"),
        Err(ParsingError::InvalidStatusCode { code: "NoRoute".to_string() })
    );
    assert_eq!(
        parsed("{\"code\":\"ok\",\"routes\":[]}"),
        Err(ParsingError::InvalidStatusCode { code: "ok".to_string() })
    );
    assert_eq!(
        parsed("{\"code\":\"\",\"routes\":[]}"),
        Err(ParsingError::InvalidStatusCode { code: String::new() })
    );
}

#[test]
fn a_response_without_a_status_is_unreadable() {
    assert_eq!(parsed("{\"routes\":[]}"), unreadable("missing field `code`"));
    assert_eq!(parsed("{\"code\":200,\"routes\":[]}"), unreadable("missing field `code`"));
    assert_eq!(parsed("[\"code\",\"Ok\"]"), unreadable("missing field `code`"));
    assert_eq!(parsed("null"), unreadable("missing field `code`"));
}

#[test]
fn a_response_without_routes_is_unreadable() {
    assert_eq!(parsed("{\"code\":\"Ok\"}"), unreadable("missing field `routes`"));
    assert_eq!(parsed("{\"code\":\"Ok\",\"routes\":{}}"), unreadable("missing field `routes`"));
    assert_eq!(parsed("{\"code\":\"Ok\",\"routes\":null}"), unreadable("missing field `routes`"));
}

#[test]
fn a_route_without_a_geometry_is_unreadable() {
    assert_eq!(
        parsed("{\"code\":\"Ok\",\"routes\":[{\"geometry\":\"??\"},{\"distance\":1}]}"),
        unreadable("missing field `geometry`")
    );
    assert_eq!(
        parsed("{\"code\":\"Ok\",\"routes\":[{\"geometry\":[0,0]}]}"),
        unreadable("missing field `geometry`")
    );
    assert_eq!(parsed("{\"code\":\"Ok\",\"routes\":[7]}"), unreadable("missing field `geometry`"));
}

#[test]
fn a_route_with_a_broken_geometry_is_unreadable() {
    assert_eq!(
        parsed("{\"code\":\"Ok\",\"routes\":[{\"geometry\":\"?\"}]}"),
        unreadable("invalid polyline")
    );
    assert_eq!(
        parsed("{\"code\":\"Ok\",\"routes\":[{\"geometry\":\"not a polyline\"}]}"),
        unreadable("invalid polyline")
    );
}

#[test]
fn the_first_route_that_fails_decides() {
    assert_eq!(
        parsed("{\"code\":\"Ok\",\"routes\":[{\"geometry\":\"??\"},{\"geometry\":\"?\"},{}]}"),
        unreadable("invalid polyline")
    );
    assert_eq!(
        parsed("{\"code\":\"Ok\",\"routes\":[{},{\"geometry\":\"?\"}]}"),
        unreadable("missing field `geometry`")
    );
}

#[test]
fn empty_response_is_a_parsing_error() {
    let outcome = OsrmResponseParser::new(6).parse_response(Vec::new());
    match outcome {
        Err(ParsingError::ParseError { error }) => assert!(error.contains("EOF"), "{}", error),
        other => panic!("an empty response gave {:?}", other),
    }
}

#[test]
fn a_response_that_is_no_json_is_a_parsing_error() {
    for response in ["<html></html>", "{\"code\":\"Ok\"", "{\"code\":\"Ok\",\"routes\":[]} x", "\u{0}"] {
        match parsed(response) {
            Err(ParsingError::ParseError { error }) => assert!(!error.is_empty()),
            other => panic!("{:?} gave {:?}", response, other),
        }
    }
    let not_text = OsrmResponseParser::new(6).parse_response(vec![0xff, 0xfe, 0x00]);
    assert!(matches!(not_text, Err(ParsingError::ParseError { .. })));
}

#[test]
fn known_pairing_reads_polylines_of_six_decimals() {
    let adapter = RouteAdapter::new_valhalla_http(
        "https://api.example.com/route/v1".to_string(),
        "auto".to_string(),
        None,
    )
    .unwrap();
    let response = "{\"code\":\"Ok\",\"routes\":[{\"geometry\":\"_p~iF~ps|U\"}]}";
    assert_eq!(
        adapter.parse_response(response.as_bytes().to_vec()),
        Ok(vec![Route { geometry: vec![at(3_850_000, -12_020_000)] }])
    );
    assert!(matches!(
        adapter.parse_response(Vec::new()),
        Err(ParsingError::ParseError { .. })
    ));
}
