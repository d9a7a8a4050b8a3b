//! The routes the API serves and the handler behind each.
use vstd::prelude::*;

verus! {

/// The HTTP method of a route.
pub enum Method {
    Get,
    Post,
}

/// The handler behind a route.
pub enum Endpoint {
    CreateUser,
    CreatePost,
    ListPosts,
}

/// A route: its method, its path with its query parameters, the format of
/// the request body it accepts (any when there is none), and its handler.
pub struct Route {
    pub method: Method,
    pub uri: String,
    pub format: Option<String>,
    pub endpoint: Endpoint,
}

/// Routes served under a common base path.
pub struct Mount {
    pub base: String,
    pub routes: Vec<Route>,
}

/// The routes of the API, all under `/api`: users are created by a JSON
/// `POST /users`, posts by a JSON `POST /posts`, and posts are listed by
/// `GET /posts`, with the optional query parameters `page`, `limit` and
/// `search`.
pub fn rocket() -> (m: Mount)
    ensures
        m.base@ == "/api"@,
        m.routes@.len() == 3,
        m.routes@[0].method is Post,
        m.routes@[0].uri@ == "/users"@,
        m.routes@[0].format matches Some(f) && f@ == "json"@,
        m.routes@[0].endpoint is CreateUser,
        m.routes@[1].method is Post,
        m.routes@[1].uri@ == "/posts"@,
        m.routes@[1].format matches Some(f) && f@ == "json"@,
        m.routes@[1].endpoint is CreatePost,
        m.routes@[2].method is Get,
        m.routes@[2].uri@ == "/posts?<page>&<limit>&<search>"@,
        m.routes@[2].format is None,
        m.routes@[2].endpoint is ListPosts,
{
    let mut routes: Vec<Route> = Vec::new();
    routes.push(
        Route {
            method: Method::Post,
            uri: String::from_str("/users"),
            format: Some(String::from_str("json")),
            endpoint: Endpoint::CreateUser,
        },
    );
    routes.push(
        Route {
            method: Method::Post,
            uri: String::from_str("/posts"),
            format: Some(String::from_str("json")),
            endpoint: Endpoint::CreatePost,
        },
    );
    routes.push(
        Route {
            method: Method::Get,
            uri: String::from_str("/posts?<page>&<limit>&<search>"),
            format: None,
            endpoint: Endpoint::ListPosts,
        },
    );
    Mount { base: String::from_str("/api"), routes }
}

} // verus!
