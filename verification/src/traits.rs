//! What a route group tells the application builder about itself.

use crate::document::{Components, OpenApi};
use vstd::prelude::*;
use vstd::string::StringExecFns;

verus! {

/// The registration record of one exposed endpoint.
#[derive(Clone, Debug)]
pub struct OpenApiPath {
    pub path: String,
    pub method: String,
    pub summary: String,
    pub description: String,
    pub tag: String,
}

/// What an [`OpenApiPath`] says.
pub struct OpenApiPathView {
    pub path: Seq<char>,
    pub method: Seq<char>,
    pub summary: Seq<char>,
    pub description: Seq<char>,
    pub tag: Seq<char>,
}

impl View for OpenApiPath {
    type V = OpenApiPathView;

    open spec fn view(&self) -> OpenApiPathView {
        OpenApiPathView {
            path: self.path@,
            method: self.method@,
            summary: self.summary@,
            description: self.description@,
            tag: self.tag@,
        }
    }
}

/// The views of a list of records, in order.
pub open spec fn route_views(routes: Seq<OpenApiPath>) -> Seq<OpenApiPathView> {
    routes.map_values(|route: OpenApiPath| route@)
}

/// The line that announces a route: its method, its path, and its tag in
/// square brackets.
pub open spec fn route_line(route: OpenApiPathView) -> Seq<char> {
    route.method + " "@ + route.path + " ["@ + route.tag + "]"@
}

impl OpenApiPath {
    /// The line that announces this route when its group is mounted.
    pub fn describe(&self) -> (line: String)
        ensures
            line@ == route_line(self@),
    {
        let mut line = self.method.clone();
        line.append(" ");
        line.append(self.path.as_str());
        line.append(" [");
        line.append(self.tag.as_str());
        line.append("]");
        line
    }
}

/// A route group: endpoints that are mounted as a unit, with what they
/// contribute to the served document. `S` is the type of schema bodies, `B`
/// that of operation bodies.
pub trait IntoRouter<S, B> {
    /// The path prefix under which the group is nested; empty to merge it at
    /// the root.
    fn prefix() -> &'static str {
        ""
    }

    /// The tag of the group's operations.
    fn tag() -> &'static str {
        "API"
    }

    /// One record for each endpoint of the group.
    fn openapi_routes() -> Vec<OpenApiPath> {
        Vec::new()
    }

    /// Adds the schemas that the group's endpoints use.
    fn register_schemas(components: &mut Components<S>) {
    }

    /// Adds the group's path items.
    fn register_paths(openapi: &mut OpenApi<S, B>) {
    }
}

/// Marker for route handlers over a state of type `S`.
pub trait RouteHandler<S>: Send + Sync + 'static where S: Clone + Send + Sync + 'static {

}

} // verus!
