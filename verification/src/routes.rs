//! Which path leads to which handler, and what the guard asks on the way.

use vstd::prelude::*;

use crate::services::token_authentication::TokenAuthentication;

verus! {

/// The methods that the routes answer to.
#[derive(Clone, Copy, Debug, PartialEq, Eq, Structural)]
pub enum Method {
    Get,
    Post,
    Delete,
}

/// The handlers that the routes lead to.
#[derive(Clone, Copy, Debug, PartialEq, Eq, Structural)]
pub enum Handler {
    UserShowMe,
    UserShow,
    UserCreate,
    UserPosts,
    PostIndex,
    PostCreate,
    PostShow,
    PostDelete,
    Login,
    Register,
}

/// What is asked of a request before it reaches a handler.
#[derive(Clone, Copy, Debug, PartialEq, Eq, Structural)]
pub enum Access {
    /// Nothing: no guard stands before the handler.
    Open,
    /// A bearer token is taken if there is one.
    TokenTaken,
    /// A bearer token is asked for.
    TokenAsked,
}

/// A method of a resource, and the handler that answers it.
#[derive(Clone, Copy, Debug, PartialEq, Eq, Structural)]
pub struct Endpoint {
    pub method: Method,
    pub handler: Handler,
}

/// A path below the prefix of its scope, what is asked of the requests to
/// it, and the handlers that answer them.
#[derive(Debug, PartialEq, Eq)]
pub struct Resource {
    pub path: &'static str,
    pub access: Access,
    pub endpoints: Vec<Endpoint>,
}

/// The resources below one prefix.
#[derive(Debug, PartialEq, Eq)]
pub struct Scope {
    pub prefix: &'static str,
    pub resources: Vec<Resource>,
}

impl Access {
    /// Whether a guard stands before the handler, and whether it asks for a
    /// bearer token.
    pub open spec fn asks(self) -> Option<bool> {
        match self {
            Access::Open => None,
            Access::TokenTaken => Some(false),
            Access::TokenAsked => Some(true),
        }
    }

    /// The guard that stands before the handler, if one does.
    pub fn guard(&self) -> (guard: Option<TokenAuthentication>)
        ensures
            match guard {
                Some(g) => self.asks() == Some(g.asks()),
                None => self.asks() is None,
            },
    {
        match self {
            Access::Open => None,
            Access::TokenTaken => Some(TokenAuthentication::unnecessary()),
            Access::TokenAsked => Some(TokenAuthentication::required()),
        }
    }
}

impl Resource {
    /// Whether this resource has the path and the access given and one
    /// endpoint.
    pub open spec fn is_single(self, path: Seq<char>, access: Access, endpoint: Endpoint) -> bool {
        self.path@ == path && self.access == access && self.endpoints@ == seq![endpoint]
    }

    /// Whether this resource has the path and the access given and two
    /// endpoints.
    pub open spec fn is_pair(
        self,
        path: Seq<char>,
        access: Access,
        first: Endpoint,
        second: Endpoint,
    ) -> bool {
        self.path@ == path && self.access == access && self.endpoints@ == seq![first, second]
    }

    /// A resource with one endpoint.
    fn single(path: &'static str, access: Access, method: Method, handler: Handler) -> (resource:
        Resource)
        ensures
            resource.is_single(path@, access, Endpoint { method, handler }),
    {
        let mut endpoints: Vec<Endpoint> = Vec::new();
        endpoints.push(Endpoint { method, handler });
        assert(endpoints@ =~= seq![Endpoint { method, handler }]);
        Resource { path, access, endpoints }
    }

    /// A resource with two endpoints.
    fn pair(path: &'static str, access: Access, first: Endpoint, second: Endpoint) -> (resource:
        Resource)
        ensures
            resource.is_pair(path@, access, first, second),
    {
        let mut endpoints: Vec<Endpoint> = Vec::new();
        endpoints.push(first);
        endpoints.push(second);
        assert(endpoints@ =~= seq![first, second]);
        Resource { path, access, endpoints }
    }
}

/// The routes to the profiles. One's own profile and signing up ask for a
/// bearer token; the profile and the posts of a user take one.
pub fn users() -> (scope: Scope)
    ensures
        scope.prefix@ == "/users"@,
        scope.resources@.len() == 4,
        scope.resources@[0].is_single(
            "/me"@,
            Access::TokenAsked,
            Endpoint { method: Method::Get, handler: Handler::UserShowMe },
        ),
        scope.resources@[1].is_single(
            "/{id}"@,
            Access::TokenTaken,
            Endpoint { method: Method::Get, handler: Handler::UserShow },
        ),
        scope.resources@[2].is_single(
            ""@,
            Access::TokenAsked,
            Endpoint { method: Method::Post, handler: Handler::UserCreate },
        ),
        scope.resources@[3].is_single(
            "/{id}/posts"@,
            Access::TokenTaken,
            Endpoint { method: Method::Get, handler: Handler::UserPosts },
        ),
{
    let mut resources: Vec<Resource> = Vec::new();
    resources.push(Resource::single("/me", Access::TokenAsked, Method::Get, Handler::UserShowMe));
    resources.push(Resource::single("/{id}", Access::TokenTaken, Method::Get, Handler::UserShow));
    resources.push(Resource::single("", Access::TokenAsked, Method::Post, Handler::UserCreate));
    resources.push(
        Resource::single("/{id}/posts", Access::TokenTaken, Method::Get, Handler::UserPosts),
    );
    Scope { prefix: "/users", resources }
}

/// The routes to the posts. Listing and posting take a bearer token; one
/// post, to be shown or deleted, asks for one.
pub fn posts() -> (scope: Scope)
    ensures
        scope.prefix@ == "/posts"@,
        scope.resources@.len() == 2,
        scope.resources@[0].is_pair(
            ""@,
            Access::TokenTaken,
            Endpoint { method: Method::Get, handler: Handler::PostIndex },
            Endpoint { method: Method::Post, handler: Handler::PostCreate },
        ),
        scope.resources@[1].is_pair(
            "/{id}"@,
            Access::TokenAsked,
            Endpoint { method: Method::Get, handler: Handler::PostShow },
            Endpoint { method: Method::Delete, handler: Handler::PostDelete },
        ),
{
    let mut resources: Vec<Resource> = Vec::new();
    resources.push(
        Resource::pair(
            "",
            Access::TokenTaken,
            Endpoint { method: Method::Get, handler: Handler::PostIndex },
            Endpoint { method: Method::Post, handler: Handler::PostCreate },
        ),
    );
    resources.push(
        Resource::pair(
            "/{id}",
            Access::TokenAsked,
            Endpoint { method: Method::Get, handler: Handler::PostShow },
            Endpoint { method: Method::Delete, handler: Handler::PostDelete },
        ),
    );
    Scope { prefix: "/posts", resources }
}

/// The routes to logging in and registering, which no guard stands before.
pub fn auth() -> (scope: Scope)
    ensures
        scope.prefix@ == "/auth"@,
        scope.resources@.len() == 2,
        scope.resources@[0].is_single(
            "/login"@,
            Access::Open,
            Endpoint { method: Method::Post, handler: Handler::Login },
        ),
        scope.resources@[1].is_single(
            "/register"@,
            Access::Open,
            Endpoint { method: Method::Post, handler: Handler::Register },
        ),
{
    let mut resources: Vec<Resource> = Vec::new();
    resources.push(Resource::single("/login", Access::Open, Method::Post, Handler::Login));
    resources.push(Resource::single("/register", Access::Open, Method::Post, Handler::Register));
    Scope { prefix: "/auth", resources }
}

} // verus!
