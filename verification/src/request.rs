//! The description of a network request that has not been sent, in the form
//! that generators return it and in the form that a host is handed it.

use crate::error::RoutingRequestGenerationError;
use std::collections::HashMap;
use vstd::prelude::*;

verus! {

/// A request for a route, as a generator describes it. The caller sends it;
/// the library never does.
///
/// A `HttpPost` always has a body, which may be empty; a `HttpGet` has none.
#[derive(Debug, PartialEq)]
pub enum RouteRequest {
    HttpPost { url: String, headers: HashMap<String, String>, body: Vec<u8> },
    HttpGet { url: String, headers: HashMap<String, String> },
}

/// What a [`RouteRequest`] holds, as mathematical values.
pub enum RouteRequestView {
    HttpPost { url: Seq<char>, headers: Map<Seq<char>, Seq<char>>, body: Seq<u8> },
    HttpGet { url: Seq<char>, headers: Map<Seq<char>, Seq<char>> },
}

impl View for RouteRequest {
    type V = RouteRequestView;

    open spec fn view(&self) -> RouteRequestView {
        match self {
            RouteRequest::HttpPost { url, headers, body } => RouteRequestView::HttpPost {
                url: url@,
                headers: headers.deep_view(),
                body: body@,
            },
            RouteRequest::HttpGet { url, headers } => RouteRequestView::HttpGet {
                url: url@,
                headers: headers.deep_view(),
            },
        }
    }
}

/// What a generator answered, as mathematical values.
pub open spec fn request_outcome_view(
    outcome: Result<RouteRequest, RoutingRequestGenerationError>,
) -> Result<RouteRequestView, RoutingRequestGenerationError> {
    match outcome {
        Ok(request) => Ok(request@),
        Err(error) => Err(error),
    }
}

/// The two ways in which a request is sent.
#[derive(Clone, Copy, Debug, PartialEq, Eq)]
pub enum HttpMethod {
    Post,
    Get,
}

impl HttpMethod {
    /// The word that a host reads the method from.
    pub open spec fn tag_text(self) -> Seq<char> {
        match self {
            HttpMethod::Post => "post"@,
            HttpMethod::Get => "get"@,
        }
    }

    pub fn tag(&self) -> (s: &'static str)
        ensures
            s@ == self.tag_text(),
    {
        match self {
            HttpMethod::Post => "post",
            HttpMethod::Get => "get",
        }
    }
}

/// A request in the one shape that a host is handed, whichever shape the
/// generator chose: the method, the address, the headers, and the body where
/// the method has one.
#[derive(Debug, PartialEq)]
pub struct HostRequest {
    pub method: HttpMethod,
    pub url: String,
    pub headers: HashMap<String, String>,
    pub body: Option<Vec<u8>>,
}

/// What a [`HostRequest`] holds, as mathematical values.
pub struct HostRequestView {
    pub method: HttpMethod,
    pub url: Seq<char>,
    pub headers: Map<Seq<char>, Seq<char>>,
    pub body: Option<Seq<u8>>,
}

impl View for HostRequest {
    type V = HostRequestView;

    open spec fn view(&self) -> HostRequestView {
        HostRequestView {
            method: self.method,
            url: self.url@,
            headers: self.headers.deep_view(),
            body: match self.body {
                Some(body) => Some(body@),
                None => None,
            },
        }
    }
}

impl HostRequestView {
    /// A request is well formed when it has a body exactly if it is posted.
    pub open spec fn well_formed(self) -> bool {
        self.method == HttpMethod::Post <==> self.body is Some
    }
}

impl RouteRequestView {
    /// The request as a host is handed it.
    pub open spec fn for_host(self) -> HostRequestView {
        match self {
            RouteRequestView::HttpPost { url, headers, body } => HostRequestView {
                method: HttpMethod::Post,
                url,
                headers,
                body: Some(body),
            },
            RouteRequestView::HttpGet { url, headers } => HostRequestView {
                method: HttpMethod::Get,
                url,
                headers,
                body: None,
            },
        }
    }
}

/// Whatever a generator describes is well formed once it is brought into
/// the shape for a host: a posted request has a body, a fetched one has none.
pub proof fn law_host_request_is_well_formed(request: RouteRequestView)
    ensures
        request.for_host().well_formed(),
        request is HttpPost <==> request.for_host().body is Some,
{
}

impl RouteRequest {
    /// Brings either shape of request into the one shape that a host reads.
    pub fn into_host(self) -> (host: HostRequest)
        ensures
            host@ == self@.for_host(),
            host@.well_formed(),
    {
        match self {
            RouteRequest::HttpPost { url, headers, body } => HostRequest {
                method: HttpMethod::Post,
                url,
                headers,
                body: Some(body),
            },
            RouteRequest::HttpGet { url, headers } => HostRequest {
                method: HttpMethod::Get,
                url,
                headers,
                body: None,
            },
        }
    }
}

} // verus!
