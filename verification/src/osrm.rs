//! Responses in the OSRM format: a JSON object with a status under `code`
//! and, where the status is `Ok`, the routes under `routes`, each with its
//! path as a polyline under `geometry`.

use crate::adapter::RouteResponseParser;
use crate::error::{ParsingError, ParsingErrorView};
use crate::json::{
    items, json_content, json_contents, json_document, member, parse_document, text, Json,
};
use crate::models::{GeographicCoordinate, Route};
use crate::polyline::{decode, decoded};
use vstd::prelude::*;
use vstd::string::StringExecFns;
use vstd::utf8::encode_utf8;

verus! {

/// The text held under `key`, or `None` where `value` has no such member or
/// the member is no string.
pub open spec fn text_member(value: Json, key: Seq<char>) -> Option<Seq<char>> {
    match value.member(key) {
        Some(inner) => inner.text(),
        None => None,
    }
}

/// The elements held under `key`, or `None` where `value` has no such member
/// or the member is no array.
pub open spec fn items_member(value: Json, key: Seq<char>) -> Option<Seq<Json>> {
    match value.member(key) {
        Some(inner) => inner.items(),
        None => None,
    }
}

/// The failure to read a response, with the reason in words.
pub open spec fn unreadable(reason: Seq<char>) -> ParsingErrorView {
    ParsingErrorView::ParseError { error: reason }
}

/// The path of one route of a response: its geometry, decoded.
pub open spec fn route_path(route: Json, precision: u32) -> Result<
    Seq<GeographicCoordinate>,
    ParsingErrorView,
> {
    match text_member(route, "geometry"@) {
        Some(geometry) => match decoded(encode_utf8(geometry), precision) {
            Some(path) => Ok(path),
            None => Err(unreadable("invalid polyline"@)),
        },
        None => Err(unreadable("missing field `geometry`"@)),
    }
}

/// The paths of the routes of a response, in order, or the failure of the
/// first route that cannot be read.
pub open spec fn route_paths(routes: Seq<Json>, precision: u32) -> Result<
    Seq<Seq<GeographicCoordinate>>,
    ParsingErrorView,
>
    decreases routes.len(),
{
    if routes.len() == 0 {
        Ok(Seq::empty())
    } else {
        match route_paths(routes.drop_last(), precision) {
            Ok(paths) => match route_path(routes.last(), precision) {
                Ok(path) => Ok(paths.push(path)),
                Err(error) => Err(error),
            },
            Err(error) => Err(error),
        }
    }
}

/// What a response that is a JSON document holds: the paths of its routes if
/// its status is `Ok`, the status if it is another, and otherwise the reason
/// for which it cannot be read.
pub open spec fn document_paths(document: Json, precision: u32) -> Result<
    Seq<Seq<GeographicCoordinate>>,
    ParsingErrorView,
> {
    match text_member(document, "code"@) {
        Some(code) => if code == "Ok"@ {
            match items_member(document, "routes"@) {
                Some(routes) => route_paths(routes, precision),
                None => Err(unreadable("missing field `routes`"@)),
            }
        } else {
            Err(ParsingErrorView::InvalidStatusCode { code })
        },
        None => Err(unreadable("missing field `code`"@)),
    }
}

/// The paths of routes.
pub open spec fn paths_of(routes: Seq<Route>) -> Seq<Seq<GeographicCoordinate>> {
    Seq::new(routes.len(), |i: int| routes[i]@)
}

/// What a parser answered, as mathematical values.
pub open spec fn routes_outcome_view(outcome: Result<Vec<Route>, ParsingError>) -> Result<
    Seq<Seq<GeographicCoordinate>>,
    ParsingErrorView,
> {
    match outcome {
        Ok(routes) => Ok(paths_of(routes@)),
        Err(error) => Err(error@),
    }
}

fn unreadable_because(reason: &str) -> (error: ParsingError)
    ensures
        error@ == unreadable(reason@),
{
    ParsingError::ParseError { error: String::from_str(reason) }
}

fn member_text<'a>(value: &'a serde_json::Value, key: &str) -> (found: Option<&'a str>)
    ensures
        match found {
            Some(inner) => text_member(json_content(*value), key@) == Some(inner@),
            None => text_member(json_content(*value), key@) is None,
        },
{
    match member(value, key) {
        Some(inner) => text(inner),
        None => None,
    }
}

fn member_items<'a>(value: &'a serde_json::Value, key: &str) -> (found: Option<
    &'a Vec<serde_json::Value>,
>)
    ensures
        match found {
            Some(inner) => items_member(json_content(*value), key@) == Some(
                json_contents(inner@),
            ),
            None => items_member(json_content(*value), key@) is None,
        },
{
    match member(value, key) {
        Some(inner) => items(inner),
        None => None,
    }
}

fn is_ok(code: &str) -> (answer: bool)
    ensures
        answer == (code@ == "Ok"@),
{
    String::from_str(code) == String::from_str("Ok")
}

fn read_route(route: &serde_json::Value, precision: u32) -> (outcome: Result<Route, ParsingError>)
    ensures
        outcome matches Ok(read) ==> read.on_globe(),
        match outcome {
            Ok(read) => route_path(json_content(*route), precision) == Ok::<_, ParsingErrorView>(
                read@,
            ),
            Err(error) => route_path(json_content(*route), precision) == Err::<
                Seq<GeographicCoordinate>,
                _,
            >(error@),
        },
{
    match member_text(route, "geometry") {
        Some(geometry) => match decode(geometry.as_bytes(), precision) {
            Some(path) => Ok(Route { geometry: path }),
            None => Err(unreadable_because("invalid polyline")),
        },
        None => Err(unreadable_because("missing field `geometry`")),
    }
}

/// A parser of responses in the OSRM format, whose polylines have a given
/// number of decimals. A coordinate holds six decimals: a parser for more
/// finds every geometry invalid.
pub struct OsrmResponseParser {
    polyline_precision: u32,
}

impl OsrmResponseParser {
    /// The number of decimals that the polylines are taken to have.
    pub closed spec fn polyline_precision(&self) -> u32 {
        self.polyline_precision
    }

    /// Makes a parser for polylines of `polyline_precision` decimals.
    pub fn new(polyline_precision: u32) -> (parser: Self)
        ensures
            parser.polyline_precision() == polyline_precision,
    {
        OsrmResponseParser { polyline_precision }
    }

    /// Whether `outcome` is what the parser answers `response` with.
    ///
    /// A response that is no JSON document is a parse error, in the words of
    /// the JSON reader. For one that is a document, the answer is that of
    /// [`document_paths`].
    pub open spec fn answers(
        &self,
        response: Seq<u8>,
        outcome: Result<Vec<Route>, ParsingError>,
    ) -> bool {
        match json_document(response) {
            Some(document) => routes_outcome_view(outcome) == document_paths(
                document,
                self.polyline_precision(),
            ),
            None => outcome matches Err(ParsingError::ParseError { .. }),
        }
    }
}

impl RouteResponseParser for OsrmResponseParser {
    #[verifier::loop_isolation(false)]
    fn parse_response(&self, response: Vec<u8>) -> (outcome: Result<Vec<Route>, ParsingError>)
        ensures
            self.answers(response@, outcome),
            response@.len() == 0 ==> outcome matches Err(ParsingError::ParseError { .. }),
            outcome matches Ok(routes) ==> forall|i: int|
                0 <= i < routes@.len() ==> (#[trigger] routes@[i]).on_globe(),
    {
        let document = match parse_document(response.as_slice()) {
            Ok(document) => document,
            Err(error) => {
                return Err(ParsingError::ParseError { error: error.to_string() });
            },
        };
        let code = match member_text(&document, "code") {
            Some(code) => code,
            None => {
                return Err(unreadable_because("missing field `code`"));
            },
        };
        if !is_ok(code) {
            return Err(ParsingError::InvalidStatusCode { code: String::from_str(code) });
        }
        let found = match member_items(&document, "routes") {
            Some(found) => found,
            None => {
                return Err(unreadable_because("missing field `routes`"));
            },
        };
        let mut routes: Vec<Route> = Vec::new();
        let mut done: usize = 0;
        proof {
            assert(paths_of(routes@) == Seq::<Seq<GeographicCoordinate>>::empty());
        }
        while done < found.len()
            invariant
                done <= found.len(),
                forall|i: int| 0 <= i < routes@.len() ==> (#[trigger] routes@[i]).on_globe(),
                route_paths(json_contents(found@).take(done as int), self.polyline_precision())
                    == Ok::<_, ParsingErrorView>(paths_of(routes@)),
            decreases found.len() - done,
        {
            proof {
                assert(json_contents(found@).take(done + 1).drop_last() == json_contents(
                    found@,
                ).take(done as int));
            }
            match read_route(&found[done], self.polyline_precision) {
                Ok(route) => {
                    proof {
                        assert(paths_of(routes@).push(route@) == paths_of(routes@.push(route)));
                    }
                    routes.push(route);
                },
                Err(error) => {
                    proof {
                        lemma_first_failure(
                            json_contents(found@),
                            done as int,
                            self.polyline_precision(),
                        );
                    }
                    return Err(error);
                },
            }
            done = done + 1;
        }
        proof {
            assert(json_contents(found@).take(done as int) == json_contents(found@));
        }
        Ok(routes)
    }
}

/// Once a route cannot be read, neither can any longer run of routes: the
/// failure of the first such route is the failure of them all.
proof fn lemma_first_failure(routes: Seq<Json>, failed: int, precision: u32)
    requires
        0 <= failed < routes.len(),
        route_paths(routes.take(failed), precision) is Ok,
        route_path(routes[failed], precision) is Err,
    ensures
        route_paths(routes, precision) == Err::<Seq<Seq<GeographicCoordinate>>, _>(
            route_path(routes[failed], precision)->Err_0,
        ),
    decreases routes.len(),
{
    if routes.len() == failed + 1 {
        assert(routes.drop_last() == routes.take(failed));
    } else {
        assert(routes.drop_last().take(failed) == routes.take(failed));
        lemma_first_failure(routes.drop_last(), failed, precision);
    }
}

} // verus!
