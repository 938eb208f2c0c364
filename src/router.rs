use vstd::prelude::*;

use crate::outcome::Action;

verus! {

/// The HTTP methods a resource answers.
#[derive(Clone, Copy, Debug, PartialEq, Eq, Structural)]
pub enum Method {
    Get,
    Post,
    Put,
    Delete,
    Patch,
}

/// The two paths of a resource: the collection (`/`) and one item (`/:id`).
#[derive(Clone, Copy, Debug, PartialEq, Eq, Structural)]
pub enum Endpoint {
    Collection,
    Item,
}

/// The fixed five-endpoint shape of every resource.
pub open spec fn binding(method: Method, endpoint: Endpoint) -> Option<Action> {
    match (endpoint, method) {
        (Endpoint::Collection, Method::Get) => Some(Action::Index),
        (Endpoint::Collection, Method::Post) => Some(Action::Store),
        (Endpoint::Item, Method::Get) => Some(Action::Show),
        (Endpoint::Item, Method::Put) => Some(Action::Update),
        (Endpoint::Item, Method::Delete) => Some(Action::Destroy),
        _ => None,
    }
}

/// The action bound to `method` on `endpoint`, if any.
pub fn dispatch(method: Method, endpoint: Endpoint) -> (r: Option<Action>)
    ensures
        r == binding(method, endpoint),
{
    match (endpoint, method) {
        (Endpoint::Collection, Method::Get) => Some(Action::Index),
        (Endpoint::Collection, Method::Post) => Some(Action::Store),
        (Endpoint::Item, Method::Get) => Some(Action::Show),
        (Endpoint::Item, Method::Put) => Some(Action::Update),
        (Endpoint::Item, Method::Delete) => Some(Action::Destroy),
        _ => None,
    }
}

impl Endpoint {
    pub open spec fn spec_path(self) -> Seq<char> {
        match self {
            Endpoint::Collection => "/"@,
            Endpoint::Item => "/:id"@,
        }
    }

    /// The route pattern of the endpoint, relative to the resource's base path.
    pub fn path(&self) -> (r: &'static str)
        ensures
            r@ == self.spec_path(),
    {
        match self {
            Endpoint::Collection => "/",
            Endpoint::Item => "/:id",
        }
    }
}

/// Where each action is bound: its endpoint and method.
pub open spec fn route_of(action: Action) -> (Endpoint, Method) {
    match action {
        Action::Index => (Endpoint::Collection, Method::Get),
        Action::Store => (Endpoint::Collection, Method::Post),
        Action::Show => (Endpoint::Item, Method::Get),
        Action::Update => (Endpoint::Item, Method::Put),
        Action::Destroy => (Endpoint::Item, Method::Delete),
    }
}

/// The endpoint and method that `action` is bound to; `dispatch` leads back
/// from them to `action`.
pub fn route(action: Action) -> (r: (Endpoint, Method))
    ensures
        r == route_of(action),
        binding(r.1, r.0) == Some(action),
{
    match action {
        Action::Index => (Endpoint::Collection, Method::Get),
        Action::Store => (Endpoint::Collection, Method::Post),
        Action::Show => (Endpoint::Item, Method::Get),
        Action::Update => (Endpoint::Item, Method::Put),
        Action::Destroy => (Endpoint::Item, Method::Delete),
    }
}

} // verus!
