//! The paths of the service and the handler behind each.

use vstd::prelude::*;

verus! {

/// The three handlers of the service.
#[derive(Clone, Copy, Debug, PartialEq, Eq)]
pub enum Handler {
    /// Lists every user.
    GetAllUsers,
    /// Lists one page of users; the page and its size come in the query string.
    GetAllUsersPaginated,
    /// Gives the user whose id is the last segment of the path.
    GetOne,
}

/// A path and the handler that answers a GET on it. No other method is
/// answered on any path.
#[derive(Clone, Copy, Debug, PartialEq, Eq)]
pub struct Route {
    /// The path as it is matched: whole, with no slash added or taken away.
    /// A segment in braces stands for any one segment.
    pub path: &'static str,
    pub handler: Handler,
}

/// The routes in the order in which they are tried. The fixed path of the
/// paginated listing stands before the path with an id in it, which the same
/// request would fit.
pub fn config() -> (routes: Vec<Route>)
    ensures
        routes@.len() == 3,
        routes@[0].path@ == "/usuarios"@,
        routes@[0].handler == Handler::GetAllUsers,
        routes@[1].path@ == "/usuarios/paginated"@,
        routes@[1].handler == Handler::GetAllUsersPaginated,
        routes@[2].path@ == "/usuarios/{id}"@,
        routes@[2].handler == Handler::GetOne,
{
    let mut routes: Vec<Route> = Vec::new();
    routes.push(Route { path: "/usuarios", handler: Handler::GetAllUsers });
    routes.push(Route { path: "/usuarios/paginated", handler: Handler::GetAllUsersPaginated });
    routes.push(Route { path: "/usuarios/{id}", handler: Handler::GetOne });
    routes
}

} // verus!
