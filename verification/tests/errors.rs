use routing_adapters::models::GeographicCoordinate;
use routing_adapters::{InstantiationError, ParsingError, RoutingRequestGenerationError};

#[test]
fn instantiation_error_has_its_text() {
    assert_eq!(InstantiationError::JsonError.message(), "Error generating JSON for the request.");
}

#[test]
fn generation_errors_have_their_texts() {
    assert_eq!(
        RoutingRequestGenerationError::NotEnoughWaypoints.message(),
        "Too few waypoints were provided to compute a route."
    );
    assert_eq!(
        RoutingRequestGenerationError::JsonError.message(),
        "Error generating JSON for the request."
    );
    assert_eq!(
        RoutingRequestGenerationError::UnknownRequestGenerationError.message(),
        "An unknown error generating a request was raised in foreign code."
    );
}

#[test]
fn parsing_errors_have_their_texts() {
    assert_eq!(
        ParsingError::ParseError { error: String::new() }.message(),
        "Failed to parse route response: ."
    );
    assert_eq!(
        ParsingError::ParseError { error: "EOF while parsing a value".to_string() }.message(),
        "Failed to parse route response: EOF while parsing a value."
    );
    assert_eq!(
        ParsingError::InvalidStatusCode { code: "InvalidUrl".to_string() }.message(),
        "Routing adapter returned an unexpected status code: InvalidUrl."
    );
    assert_eq!(
        ParsingError::UnknownParsingError.message(),
        "An unknown error parsing a response was raised in foreign code."
    );
}

#[test]
fn coordinates_on_and_off_the_globe() {
    assert!(GeographicCoordinate { lat: 0, lng: 0 }.is_on_globe());
    assert!(GeographicCoordinate { lat: 90_000_000, lng: -180_000_000 }.is_on_globe());
    assert!(GeographicCoordinate { lat: -90_000_000, lng: 180_000_000 }.is_on_globe());
    assert!(!GeographicCoordinate { lat: 90_000_001, lng: 0 }.is_on_globe());
    assert!(!GeographicCoordinate { lat: -90_000_001, lng: 0 }.is_on_globe());
    assert!(!GeographicCoordinate { lat: 0, lng: 180_000_001 }.is_on_globe());
    assert!(!GeographicCoordinate { lat: 0, lng: -180_000_001 }.is_on_globe());
    assert!(!GeographicCoordinate { lat: i32::MIN, lng: i32::MAX }.is_on_globe());
}
