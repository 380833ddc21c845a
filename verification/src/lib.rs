//! The bridge between a navigation engine and the routing backends that it asks
//! for routes.
//!
//! A backend is reached in two steps. A [`RouteRequestGenerator`] turns the
//! traveller's position and the waypoints into the description of a network
//! request, a [`RouteRequest`]; the caller sends it. A [`RouteResponseParser`]
//! turns the bytes that came back into [`models::Route`]s. A [`RouteAdapter`]
//! holds one of each. Nothing here touches the network.
//!
//! [`RouteAdapter::new`] binds any generator to any parser.
//! [`RouteAdapter::new_valhalla_http`] makes the one pairing that is known to
//! fit: the generator of [`valhalla`] with the parser of [`osrm`]. A host that
//! cannot hold the library's types goes through [`JsRouteAdapter`].

pub mod adapter;
pub mod error;
pub mod js;
pub mod json;
pub mod models;
pub mod osrm;
pub mod polyline;
pub mod request;
pub mod valhalla;

pub use adapter::{RouteAdapter, RouteRequestGenerator, RouteResponseParser};
pub use error::{InstantiationError, ParsingError, RoutingRequestGenerationError};
pub use js::JsRouteAdapter;
pub use request::{HostRequest, HttpMethod, RouteRequest};
