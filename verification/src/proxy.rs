//! Reverse proxying: which path a handler claims, what it adds to the route
//! table, and where a request under its path is sent.

use vstd::prelude::*;
use crate::config::{text_of, Backend, BackendView};
use crate::router::{Route, RouteTable, RouteView};
use crate::text::{has_prefix, starts_with};

verus! {

/// The mathematical content of a proxy route.
pub struct ProxyRouteView {
    /// The path prefix that the route claims.
    pub path: Seq<char>,
    /// Where requests are sent.
    pub backend: BackendView,
    /// What takes the place of the mount path in a forwarded request.
    pub rewrite: Option<Seq<char>>,
    /// Whether the route relays WebSocket connections.
    pub ws: bool,
    /// The client that carries the requests, where the route uses one.
    pub client: Option<reqwest::Client>,
}

/// The path that is sent upstream for a request path under `mount`: with a
/// rewrite prefix, the prefix takes the place of the mount path; without
/// one, the request path goes unchanged.
pub open spec fn rewritten_path(mount: Seq<char>, rewrite: Option<Seq<char>>, path: Seq<char>) -> Seq<
    char,
> {
    match rewrite {
        Some(prefix) => prefix + path.skip(mount.len() as int),
        None => path,
    }
}

/// The upstream URL for a request path: the backend's origin followed by the
/// rewritten path, for a path under the backend's path; none for any other.
pub open spec fn upstream_of(backend: BackendView, rewrite: Option<Seq<char>>, path: Seq<char>) -> Option<
    Seq<char>,
> {
    if has_prefix(path, backend.path) {
        Some(backend.origin + rewritten_path(backend.path, rewrite, path))
    } else {
        None
    }
}

/// Computes the upstream URL for a request path. `path` is the request's
/// path as received, with its query where it has one.
pub fn upstream_url(backend: &Backend, rewrite: &Option<String>, path: &str) -> (r: Option<String>)
    ensures
        text_of(r) == upstream_of(backend@, text_of(*rewrite), path@),
{
    if !starts_with(path, backend.path.as_str()) {
        return None;
    }
    let mut out = backend.origin.clone();
    match rewrite {
        Some(prefix) => {
            let from: usize = backend.path.as_str().unicode_len();
            let to: usize = path.unicode_len();
            out.append(prefix.as_str());
            out.append(path.substring_char(from, to));
            assert(path@.subrange(from as int, to as int) =~= path@.skip(from as int));
        },
        None => {
            out.append(path);
        },
    }
    assert(out@ =~= backend@.origin + rewritten_path(backend@.path, text_of(*rewrite), path@));
    Some(out)
}

/// Without a rewrite prefix the whole request path, mount path included,
/// reaches the backend's origin unchanged.
pub proof fn lemma_no_rewrite_forwards_unchanged(backend: BackendView, path: Seq<char>)
    requires
        has_prefix(path, backend.path),
    ensures
        upstream_of(backend, None, path) == Some(backend.origin + path),
{
}

/// With a rewrite prefix the upstream path begins with the prefix and goes
/// on with what followed the mount path in the request.
pub proof fn lemma_rewrite_replaces_mount(
    backend: BackendView,
    prefix: Seq<char>,
    rest: Seq<char>,
)
    ensures
        upstream_of(backend, Some(prefix), backend.path + rest) == Some(
            backend.origin + prefix + rest,
        ),
{
    let path = backend.path + rest;
    assert(path.subrange(0, backend.path.len() as int) =~= backend.path);
    assert(path.skip(backend.path.len() as int) =~= rest);
    assert(backend.origin + (prefix + rest) =~= backend.origin + prefix + rest);
}

/// What a proxying strategy offers to the router: the path it claims, and
/// the registration of its route.
pub trait ProxyHandler: Sized {
    /// The route that this handler stands for.
    spec fn route(&self) -> ProxyRouteView;

    /// The path where this proxy is mounted.
    fn path(&self) -> (p: &str)
        ensures
            p@ == self.route().path,
    ;

    /// Adds this handler's route behind those that `router` holds, which
    /// all stay as they are.
    fn register(self, router: RouteTable) -> (r: RouteTable)
        ensures
            r@ == router@.push(RouteView::Proxy(self.route())),
    ;
}

/// A handler that forwards HTTP requests to a backend.
#[derive(Debug)]
pub struct ProxyHandlerHttp {
    /// The client that carries the forwarded requests.
    pub client: reqwest::Client,
    /// The backend to which requests are forwarded.
    pub backend: Backend,
    /// What takes the place of the mount path in a forwarded request.
    pub rewrite: Option<String>,
}

impl ProxyHandlerHttp {
    /// The route of this handler: mounted at the backend's path, carried by
    /// the handler's client.
    pub open spec fn http_route(&self) -> ProxyRouteView {
        ProxyRouteView {
            path: self.backend@.path,
            backend: self.backend@,
            rewrite: text_of(self.rewrite),
            ws: false,
            client: Some(self.client),
        }
    }

    /// Construct a new instance.
    pub fn new(client: reqwest::Client, backend: Backend, rewrite: Option<String>) -> (r:
        ProxyHandlerHttp)
        ensures
            r.client == client,
            r.backend == backend,
            r.rewrite == rewrite,
    {
        ProxyHandlerHttp { client, backend, rewrite }
    }

    /// The URL to which a request with this path is forwarded, for a path
    /// under the mount path.
    pub fn upstream(&self, path: &str) -> (r: Option<String>)
        ensures
            text_of(r) == upstream_of(self.backend@, text_of(self.rewrite), path@),
    {
        upstream_url(&self.backend, &self.rewrite, path)
    }
}

impl ProxyHandler for ProxyHandlerHttp {
    open spec fn route(&self) -> ProxyRouteView {
        self.http_route()
    }

    fn path(&self) -> (p: &str) {
        self.backend.path.as_str()
    }

    fn register(self, router: RouteTable) -> (r: RouteTable) {
        let mut router = router;
        let ghost before = router@;
        let ghost added = RouteView::Proxy(self.route());
        router.routes.push(Route::ProxyHttp(self));
        assert(router@ =~= before.push(added));
        router
    }
}

/// A handler that relays WebSocket connections to a backend.
#[derive(Debug)]
pub struct ProxyHandlerWebSocket {
    /// The backend to which connections are relayed.
    pub backend: Backend,
    /// What takes the place of the mount path in the upstream URL.
    pub rewrite: Option<String>,
}

impl ProxyHandlerWebSocket {
    /// The route of this handler: mounted at the backend's path, relayed
    /// without a client of the server.
    pub open spec fn ws_route(&self) -> ProxyRouteView {
        ProxyRouteView {
            path: self.backend@.path,
            backend: self.backend@,
            rewrite: text_of(self.rewrite),
            ws: true,
            client: None,
        }
    }

    /// Construct a new instance.
    pub fn new(backend: Backend, rewrite: Option<String>) -> (r: ProxyHandlerWebSocket)
        ensures
            r.backend == backend,
            r.rewrite == rewrite,
    {
        ProxyHandlerWebSocket { backend, rewrite }
    }

    /// The URL to which a connection asked for at this path is opened, for a
    /// path under the mount path.
    pub fn upstream(&self, path: &str) -> (r: Option<String>)
        ensures
            text_of(r) == upstream_of(self.backend@, text_of(self.rewrite), path@),
    {
        upstream_url(&self.backend, &self.rewrite, path)
    }
}

impl ProxyHandler for ProxyHandlerWebSocket {
    open spec fn route(&self) -> ProxyRouteView {
        self.ws_route()
    }

    fn path(&self) -> (p: &str) {
        self.backend.path.as_str()
    }

    fn register(self, router: RouteTable) -> (r: RouteTable) {
        let mut router = router;
        let ghost before = router@;
        let ghost added = RouteView::Proxy(self.route());
        router.routes.push(Route::ProxyWebSocket(self));
        assert(router@ =~= before.push(added));
        router
    }
}

} // verus!
