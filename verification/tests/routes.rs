use social_backend::routes::{auth, posts, users, Access, Endpoint, Handler, Method, Resource, Scope};

fn single(path: &'static str, access: Access, method: Method, handler: Handler) -> Resource {
    Resource { path, access, endpoints: vec![Endpoint { method, handler }] }
}

#[test]
fn routes_to_the_profiles() {
    assert_eq!(
        users(),
        Scope {
            prefix: "/users",
            resources: vec![
                single("/me", Access::TokenAsked, Method::Get, Handler::UserShowMe),
                single("/{id}", Access::TokenTaken, Method::Get, Handler::UserShow),
                single("", Access::TokenAsked, Method::Post, Handler::UserCreate),
                single("/{id}/posts", Access::TokenTaken, Method::Get, Handler::UserPosts),
            ],
        }
    );
}

#[test]
fn routes_to_the_posts() {
    assert_eq!(
        posts(),
        Scope {
            prefix: "/posts",
            resources: vec![
                Resource {
                    path: "",
                    access: Access::TokenTaken,
                    endpoints: vec![
                        Endpoint { method: Method::Get, handler: Handler::PostIndex },
                        Endpoint { method: Method::Post, handler: Handler::PostCreate },
                    ],
                },
                Resource {
                    path: "/{id}",
                    access: Access::TokenAsked,
                    endpoints: vec![
                        Endpoint { method: Method::Get, handler: Handler::PostShow },
                        Endpoint { method: Method::Delete, handler: Handler::PostDelete },
                    ],
                },
            ],
        }
    );
}

#[test]
fn routes_to_logging_in_and_registering() {
    assert_eq!(
        auth(),
        Scope {
            prefix: "/auth",
            resources: vec![
                single("/login", Access::Open, Method::Post, Handler::Login),
                single("/register", Access::Open, Method::Post, Handler::Register),
            ],
        }
    );
}

#[test]
fn access_names_its_guard() {
    assert!(Access::Open.guard().is_none());
    assert!(!Access::TokenTaken.guard().unwrap().is_required());
    assert!(Access::TokenAsked.guard().unwrap().is_required());
}
