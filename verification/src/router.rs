//! The route table: the static assets, the reload endpoint, and the proxies
//! in the order in which they take effect.

use vstd::prelude::*;
use crate::config::{clone_text, text_of, ProxyEntry, ProxyEntryView, ServerConfig};
use crate::proxy::{ProxyHandler, ProxyHandlerHttp, ProxyHandlerWebSocket, ProxyRouteView};
use crate::state::State;

verus! {

/// The file served for a request that matches no file.
pub const INDEX_HTML: &'static str = "index.html";

/// The path of the reload endpoint, whatever the public URL is.
pub const RELOAD_PATH: &'static str = "/_trunk/ws";

/// One entry of the route table.
#[derive(Debug)]
pub enum Route {
    /// Files of `dist_dir` under `mount`, with `fallback_file` of that
    /// directory for every path without a file. It takes every request that
    /// no other route claims.
    StaticAssets {
        public_url: String,
        mount: String,
        dist_dir: std::path::PathBuf,
        fallback_file: String,
    },
    /// The endpoint that upgrades to a reload connection.
    Reload { path: String },
    /// Requests under the handler's path are forwarded over HTTP.
    ProxyHttp(ProxyHandlerHttp),
    /// Connections under the handler's path are relayed as WebSockets.
    ProxyWebSocket(ProxyHandlerWebSocket),
}

/// The mathematical content of a [`Route`].
pub enum RouteView {
    StaticAssets {
        public_url: Seq<char>,
        mount: Seq<char>,
        dist_dir: std::path::PathBuf,
        fallback_file: Seq<char>,
    },
    Reload { path: Seq<char> },
    Proxy(ProxyRouteView),
}

impl View for Route {
    type V = RouteView;

    open spec fn view(&self) -> RouteView {
        match *self {
            Route::StaticAssets { public_url, mount, dist_dir, fallback_file } => {
                RouteView::StaticAssets {
                    public_url: public_url@,
                    mount: mount@,
                    dist_dir: dist_dir,
                    fallback_file: fallback_file@,
                }
            },
            Route::Reload { path } => RouteView::Reload { path: path@ },
            Route::ProxyHttp(handler) => RouteView::Proxy(handler.http_route()),
            Route::ProxyWebSocket(handler) => RouteView::Proxy(handler.ws_route()),
        }
    }
}

/// What the operator is told when a route is registered: where the static
/// assets are served, and which path is proxied to which backend. The
/// reload endpoint is registered without a word.
pub open spec fn notice_text(route: RouteView, server: Seq<char>) -> Option<Seq<char>> {
    match route {
        RouteView::StaticAssets { public_url, .. } => Some(
            server + " serving static assets at -> "@ + public_url,
        ),
        RouteView::Reload { .. } => None,
        RouteView::Proxy(proxy) => Some(
            server + (if proxy.ws {
                " proxying websocket "@
            } else {
                " proxying "@
            }) + proxy.path + " -> "@ + proxy.backend.url(),
        ),
    }
}

impl Route {
    /// Writes what the operator is told when this route is registered.
    /// `server` is the mark that stands before every such line.
    pub fn notice(&self, server: &str) -> (r: Option<String>)
        ensures
            text_of(r) == notice_text(self@, server@),
    {
        match self {
            Route::StaticAssets { public_url, .. } => {
                let mut out = String::from_str(server);
                out.append(" serving static assets at -> ");
                out.append(public_url.as_str());
                Some(out)
            },
            Route::Reload { .. } => None,
            Route::ProxyHttp(handler) => {
                let mut out = String::from_str(server);
                out.append(" proxying ");
                out.append(handler.path());
                out.append(" -> ");
                out.append(handler.backend.url().as_str());
                assert(out@ =~= notice_text(self@, server@).unwrap());
                Some(out)
            },
            Route::ProxyWebSocket(handler) => {
                let mut out = String::from_str(server);
                out.append(" proxying websocket ");
                out.append(handler.path());
                out.append(" -> ");
                out.append(handler.backend.url().as_str());
                assert(out@ =~= notice_text(self@, server@).unwrap());
                Some(out)
            },
        }
    }
}

/// The routes of a server, in the order of their registration.
#[derive(Debug)]
pub struct RouteTable {
    pub routes: Vec<Route>,
}

impl View for RouteTable {
    type V = Seq<RouteView>;

    open spec fn view(&self) -> Seq<RouteView> {
        self.routes@.map_values(|route: Route| route@)
    }
}

impl RouteTable {
    /// A table without routes.
    pub fn new() -> (r: RouteTable)
        ensures
            r.routes@ == Seq::<Route>::empty(),
            r@ == Seq::<RouteView>::empty(),
    {
        let r = RouteTable { routes: Vec::new() };
        assert(r@ =~= Seq::<RouteView>::empty());
        r
    }
}

/// Where the assets are mounted: the public URL without its last slash,
/// unless the public URL is the root itself.
pub open spec fn mount_of(public_url: Seq<char>) -> Seq<char> {
    if public_url.len() >= 2 && public_url.last() == '/' {
        public_url.drop_last()
    } else {
        public_url
    }
}

/// Computes where the assets are mounted.
pub fn mount_point(public_url: &str) -> (r: String)
    ensures
        r@ == mount_of(public_url@),
{
    let n: usize = public_url.unicode_len();
    if n >= 2 && public_url.get_char(n - 1) == '/' {
        String::from_str(public_url.substring_char(0, n - 1))
    } else {
        String::from_str(public_url)
    }
}

/// The route that a proxy rule stands for: mounted at the backend's path,
/// relayed as a WebSocket where the rule says so, and else carried by the
/// client that matches the rule's stance on certificates.
pub open spec fn proxy_route(
    entry: ProxyEntryView,
    client: reqwest::Client,
    insecure_client: reqwest::Client,
) -> ProxyRouteView {
    ProxyRouteView {
        path: entry.backend.path,
        backend: entry.backend,
        rewrite: entry.rewrite,
        ws: entry.ws,
        client: if entry.ws {
            None
        } else if entry.insecure {
            Some(insecure_client)
        } else {
            Some(client)
        },
    }
}

/// The route of the static assets.
pub open spec fn static_route(state: &State) -> RouteView {
    RouteView::StaticAssets {
        public_url: state.public_url@,
        mount: mount_of(state.public_url@),
        dist_dir: state.dist_dir,
        fallback_file: INDEX_HTML@,
    }
}

/// The route of the reload endpoint.
pub open spec fn reload_route() -> RouteView {
    RouteView::Reload { path: RELOAD_PATH@ }
}

/// The whole table: the static assets first, the reload endpoint second,
/// then one route for each proxy rule that is honoured, in their order.
pub open spec fn planned_routes(state: &State, cfg: &ServerConfig) -> Seq<RouteView> {
    seq![static_route(state), reload_route()] + cfg.proxy_entries().map_values(
        |entry: ProxyEntryView|
            RouteView::Proxy(proxy_route(entry, state.client, state.insecure_client)),
    )
}

/// Registers the route of one proxy rule behind the routes of `router`.
pub fn register_proxy(router: RouteTable, entry: &ProxyEntry, state: &State) -> (r: RouteTable)
    ensures
        r@ == router@.push(
            RouteView::Proxy(proxy_route(entry@, state.client, state.insecure_client)),
        ),
{
    if entry.ws {
        let handler = ProxyHandlerWebSocket::new(entry.backend.clone(), clone_text(&entry.rewrite));
        handler.register(router)
    } else {
        let client = if entry.insecure {
            state.insecure_client.clone()
        } else {
            state.client.clone()
        };
        let handler = ProxyHandlerHttp::new(client, entry.backend.clone(), clone_text(&entry.rewrite));
        handler.register(router)
    }
}

/// Build the router: the static file server and the reload endpoint, then
/// the proxies. A single proxy rule, where there is one, is the only one
/// registered; else each listed rule is registered, in its order.
pub fn router(state: &State, cfg: &ServerConfig) -> (r: RouteTable)
    ensures
        r@ == planned_routes(state, cfg),
{
    let mut table = RouteTable::new();
    table.routes.push(
        Route::StaticAssets {
            public_url: state.public_url.clone(),
            mount: mount_point(state.public_url.as_str()),
            dist_dir: state.dist_dir.clone(),
            fallback_file: String::from_str(INDEX_HTML),
        },
    );
    table.routes.push(Route::Reload { path: String::from_str(RELOAD_PATH) });
    let ghost base = seq![static_route(state), reload_route()];
    let ghost f = |entry: ProxyEntryView|
        RouteView::Proxy(proxy_route(entry, state.client, state.insecure_client));
    assert(table@ =~= base);
    match &cfg.proxy {
        Some(entry) => {
            table = register_proxy(table, entry, state);
            assert(table@ =~= base + seq![entry@].map_values(f));
        },
        None => {
            let ghost views = cfg.proxies@.map_values(|e: ProxyEntry| e@);
            let mut i: usize = 0;
            while i < cfg.proxies.len()
                invariant
                    i <= cfg.proxies.len(),
                    views == cfg.proxies@.map_values(|e: ProxyEntry| e@),
                    f == (|entry: ProxyEntryView|
                        RouteView::Proxy(proxy_route(entry, state.client, state.insecure_client))),
                    table@ == base + views.take(i as int).map_values(f),
                decreases cfg.proxies.len() - i,
            {
                table = register_proxy(table, &cfg.proxies[i], state);
                assert(views.take(i + 1) =~= views.take(i as int).push(cfg.proxies@[i as int]@));
                assert(table@ =~= base + views.take(i + 1).map_values(f));
                i += 1;
            }
            assert(views.take(i as int) =~= views);
        },
    }
    table
}

/// The static assets and the reload endpoint stand first in every table,
/// in this order, whatever proxies are configured; every route behind them
/// is a proxy route, one for each rule that is honoured.
pub proof fn lemma_fixed_routes_come_first(state: &State, cfg: &ServerConfig)
    ensures
        planned_routes(state, cfg).len() == 2 + cfg.proxy_entries().len(),
        planned_routes(state, cfg)[0] == static_route(state),
        planned_routes(state, cfg)[1] == reload_route(),
        forall|i: int|
            2 <= i < planned_routes(state, cfg).len() ==> #[trigger] planned_routes(state, cfg)[i]
                == RouteView::Proxy(
                proxy_route(cfg.proxy_entries()[i - 2], state.client, state.insecure_client),
            ),
{
}

/// A single proxy rule takes precedence: where one is present, it gives
/// the only proxy route, and the listed rules give none, however many
/// there are.
pub proof fn lemma_single_rule_takes_precedence(
    state: &State,
    cfg: &ServerConfig,
    other: &ServerConfig,
)
    requires
        cfg.proxy is Some,
        other.proxy == cfg.proxy,
    ensures
        planned_routes(state, cfg) == seq![
            static_route(state),
            reload_route(),
            RouteView::Proxy(
                proxy_route(cfg.proxy.unwrap()@, state.client, state.insecure_client),
            ),
        ],
        planned_routes(state, other) == planned_routes(state, cfg),
{
    assert(planned_routes(state, cfg) =~= seq![
        static_route(state),
        reload_route(),
        RouteView::Proxy(proxy_route(cfg.proxy.unwrap()@, state.client, state.insecure_client)),
    ]);
}

/// Without a single proxy rule, the listed rules give the proxy routes,
/// one each and in the order of the list.
pub proof fn lemma_listed_rules_in_order(state: &State, cfg: &ServerConfig, i: int)
    requires
        cfg.proxy is None,
        0 <= i < cfg.proxies@.len(),
    ensures
        planned_routes(state, cfg).len() == 2 + cfg.proxies@.len(),
        planned_routes(state, cfg)[2 + i] == RouteView::Proxy(
            proxy_route(cfg.proxies@[i]@, state.client, state.insecure_client),
        ),
{
}

} // verus!
