//! The routes of the service: which handler answers which method and path,
//! and which routes stand behind the guard.

use vstd::prelude::*;

verus! {

/// The HTTP methods that the service answers.
#[derive(Debug, Clone, Copy, PartialEq, Eq, Structural)]
pub enum Method {
    Get,
    Post,
    Patch,
    Delete,
}

/// The handlers of the service.
#[derive(Debug, Clone, Copy, PartialEq, Eq, Structural)]
pub enum Handler {
    GetMe,
    RefreshToken,
    Logout,
    Register,
    Login,
    HealthChecker,
    TicketList,
    CreateTicket,
    GetTicket,
    EditTicket,
    DeleteTicket,
    CommentsList,
    CreateComment,
}

/// One route: a method and a path, the handler that answers them, and
/// whether the guard stands in front of it. A path segment that begins
/// with a colon stands for a number.
#[derive(Debug, Clone, Copy, PartialEq, Eq)]
pub struct Route {
    pub method: Method,
    pub path: &'static str,
    pub handler: Handler,
    pub guarded: bool,
}

/// What a [`Route`] holds.
pub struct RouteView {
    pub method: Method,
    pub path: Seq<char>,
    pub handler: Handler,
    pub guarded: bool,
}

impl View for Route {
    type V = RouteView;

    open spec fn view(&self) -> RouteView {
        RouteView {
            method: self.method,
            path: self.path@,
            handler: self.handler,
            guarded: self.guarded,
        }
    }
}

impl DeepView for Route {
    type V = RouteView;

    open spec fn deep_view(&self) -> RouteView {
        self@
    }
}

/// A route that anyone may call.
pub open spec fn open_route(method: Method, path: Seq<char>, handler: Handler) -> RouteView {
    RouteView { method, path, handler, guarded: false }
}

/// The routes of the service. Only the profile of the user behind a
/// session stands behind the guard.
pub open spec fn routes() -> Seq<RouteView> {
    seq![
        RouteView {
            method: Method::Get,
            path: "/api/users/me"@,
            handler: Handler::GetMe,
            guarded: true,
        },
        open_route(Method::Post, "/api/refresh"@, Handler::RefreshToken),
        open_route(Method::Get, "/api/logout"@, Handler::Logout),
        open_route(Method::Post, "/api/register"@, Handler::Register),
        open_route(Method::Post, "/api/login"@, Handler::Login),
        open_route(Method::Get, "/api/healthchecker"@, Handler::HealthChecker),
        open_route(Method::Get, "/api/ticket/all"@, Handler::TicketList),
        open_route(Method::Post, "/api/ticket/"@, Handler::CreateTicket),
        open_route(Method::Get, "/api/ticket/:id"@, Handler::GetTicket),
        open_route(Method::Patch, "/api/ticket/:id"@, Handler::EditTicket),
        open_route(Method::Delete, "/api/ticket/:id"@, Handler::DeleteTicket),
        open_route(Method::Get, "/api/comments/:id"@, Handler::CommentsList),
        open_route(Method::Post, "/api/comments/"@, Handler::CreateComment),
    ]
}

/// A route that anyone may call.
fn open_to_all(method: Method, path: &'static str, handler: Handler) -> (route: Route)
    ensures
        route@ == open_route(method, path@, handler),
{
    Route { method, path, handler, guarded: false }
}

/// The routes of the service, in the order in which they are registered.
pub fn create_router() -> (table: Vec<Route>)
    ensures
        table.deep_view() == routes(),
{
    let mut table: Vec<Route> = Vec::new();
    table.push(
        Route { method: Method::Get, path: "/api/users/me", handler: Handler::GetMe, guarded: true },
    );
    table.push(open_to_all(Method::Post, "/api/refresh", Handler::RefreshToken));
    table.push(open_to_all(Method::Get, "/api/logout", Handler::Logout));
    table.push(open_to_all(Method::Post, "/api/register", Handler::Register));
    table.push(open_to_all(Method::Post, "/api/login", Handler::Login));
    table.push(open_to_all(Method::Get, "/api/healthchecker", Handler::HealthChecker));
    table.push(open_to_all(Method::Get, "/api/ticket/all", Handler::TicketList));
    table.push(open_to_all(Method::Post, "/api/ticket/", Handler::CreateTicket));
    table.push(open_to_all(Method::Get, "/api/ticket/:id", Handler::GetTicket));
    table.push(open_to_all(Method::Patch, "/api/ticket/:id", Handler::EditTicket));
    table.push(open_to_all(Method::Delete, "/api/ticket/:id", Handler::DeleteTicket));
    table.push(open_to_all(Method::Get, "/api/comments/:id", Handler::CommentsList));
    table.push(open_to_all(Method::Post, "/api/comments/", Handler::CreateComment));
    assert(table.deep_view() =~= routes());
    table
}

} // verus!
