//! What can go wrong when an adapter is built, a request generated or a
//! response parsed, and the text that each failure is reported with.

use vstd::prelude::*;
use vstd::string::StringExecFns;

verus! {

/// A convenience constructor was given a configuration that no generator can
/// be built from.
#[derive(Clone, Copy, Debug, PartialEq, Eq)]
pub enum InstantiationError {
    /// The options payload is not a JSON document.
    JsonError,
}

impl InstantiationError {
    /// The text that the failure is reported with.
    pub open spec fn text(self) -> Seq<char> {
        "Error generating JSON for the request."@
    }

    pub fn message(&self) -> (s: String)
        ensures
            s@ == self.text(),
    {
        String::from_str("Error generating JSON for the request.")
    }
}

/// A generator could not turn its inputs into a request.
#[derive(Clone, Copy, Debug, PartialEq, Eq)]
pub enum RoutingRequestGenerationError {
    /// Fewer waypoints were given than the backend needs for a route.
    NotEnoughWaypoints,
    /// A part of the request could not be written as JSON.
    JsonError,
    /// A generator outside this library failed without saying more.
    UnknownRequestGenerationError,
}

impl RoutingRequestGenerationError {
    /// The text that the failure is reported with.
    pub open spec fn text(self) -> Seq<char> {
        match self {
            RoutingRequestGenerationError::NotEnoughWaypoints =>
                "Too few waypoints were provided to compute a route."@,
            RoutingRequestGenerationError::JsonError => "Error generating JSON for the request."@,
            RoutingRequestGenerationError::UnknownRequestGenerationError =>
                "An unknown error generating a request was raised in foreign code."@,
        }
    }

    pub fn message(&self) -> (s: String)
        ensures
            s@ == self.text(),
    {
        match self {
            RoutingRequestGenerationError::NotEnoughWaypoints => String::from_str(
                "Too few waypoints were provided to compute a route.",
            ),
            RoutingRequestGenerationError::JsonError => String::from_str(
                "Error generating JSON for the request.",
            ),
            RoutingRequestGenerationError::UnknownRequestGenerationError => String::from_str(
                "An unknown error generating a request was raised in foreign code.",
            ),
        }
    }
}

/// A parser could not turn a response into routes.
#[derive(Clone, Debug, PartialEq, Eq)]
pub enum ParsingError {
    /// The response is not in the form that the backend answers in.
    ParseError { error: String },
    /// The backend answered that it has no route, with this status.
    InvalidStatusCode { code: String },
    /// A parser outside this library failed without saying more.
    UnknownParsingError,
}

/// What a [`ParsingError`] holds, as mathematical values.
pub enum ParsingErrorView {
    ParseError { error: Seq<char> },
    InvalidStatusCode { code: Seq<char> },
    UnknownParsingError,
}

impl ParsingErrorView {
    /// The text that the failure is reported with.
    pub open spec fn text(self) -> Seq<char> {
        match self {
            ParsingErrorView::ParseError { error } => "Failed to parse route response: "@ + error
                + "."@,
            ParsingErrorView::InvalidStatusCode { code } =>
                "Routing adapter returned an unexpected status code: "@ + code + "."@,
            ParsingErrorView::UnknownParsingError =>
                "An unknown error parsing a response was raised in foreign code."@,
        }
    }
}

impl View for ParsingError {
    type V = ParsingErrorView;

    open spec fn view(&self) -> ParsingErrorView {
        match self {
            ParsingError::ParseError { error } => ParsingErrorView::ParseError { error: error@ },
            ParsingError::InvalidStatusCode { code } => ParsingErrorView::InvalidStatusCode {
                code: code@,
            },
            ParsingError::UnknownParsingError => ParsingErrorView::UnknownParsingError,
        }
    }
}

impl ParsingError {
    pub fn message(&self) -> (s: String)
        ensures
            s@ == self@.text(),
    {
        match self {
            ParsingError::ParseError { error } => {
                let mut s = String::from_str("Failed to parse route response: ");
                s.append(error.as_str());
                s.append(".");
                s
            },
            ParsingError::InvalidStatusCode { code } => {
                let mut s = String::from_str(
                    "Routing adapter returned an unexpected status code: ",
                );
                s.append(code.as_str());
                s.append(".");
                s
            },
            ParsingError::UnknownParsingError => String::from_str(
                "An unknown error parsing a response was raised in foreign code.",
            ),
        }
    }
}

} // verus!
