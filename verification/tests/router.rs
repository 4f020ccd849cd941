use std::path::PathBuf;

use serve_core::addr::{IpAddress, Ipv4};
use serve_core::config::{Backend, ProxyEntry, ServerConfig};
use serve_core::proxy::{ProxyHandler, ProxyHandlerHttp, ProxyHandlerWebSocket};
use serve_core::router::{mount_point, register_proxy, router, Route, RouteTable, INDEX_HTML, RELOAD_PATH};
use serve_core::state::State;

fn entry(origin: &str, path: &str, rewrite: Option<&str>, ws: bool, insecure: bool) -> ProxyEntry {
    ProxyEntry {
        backend: Backend::new(origin.to_string(), path.to_string()),
        rewrite: rewrite.map(|r| r.to_string()),
        ws,
        insecure,
    }
}

fn config_with(public_url: &str, proxy: Option<ProxyEntry>, proxies: Vec<ProxyEntry>) -> ServerConfig {
    ServerConfig {
        address: IpAddress::V4(Ipv4::new(0, 0, 0, 0)),
        port: 8080,
        tls: false,
        open: false,
        no_autoreload: false,
        dist_dir: PathBuf::from("/srv/dist"),
        public_url: public_url.to_string(),
        proxy,
        proxies,
    }
}

fn state_for(cfg: &ServerConfig) -> State {
    let (tx, _) = tokio::sync::broadcast::channel::<()>(8);
    State::new(
        cfg.dist_dir.clone(),
        cfg.public_url.clone(),
        reqwest::Client::new(),
        reqwest::Client::new(),
        cfg,
        tx,
    )
}

fn proxy_summary(route: &Route) -> (bool, String, String, Option<String>) {
    match route {
        Route::ProxyHttp(h) => (false, h.path().to_string(), h.backend.url(), h.rewrite.clone()),
        Route::ProxyWebSocket(h) => (true, h.path().to_string(), h.backend.url(), h.rewrite.clone()),
        _ => panic!("not a proxy route"),
    }
}

#[test]
fn mount_point_strips_one_trailing_slash() {
    assert_eq!(mount_point("/"), "/");
    assert_eq!(mount_point("/app/"), "/app");
    assert_eq!(mount_point("/app"), "/app");
    assert_eq!(mount_point("/a/b/"), "/a/b");
    assert_eq!(mount_point("/app//"), "/app/");
    assert_eq!(mount_point("//"), "/");
    assert_eq!(mount_point(""), "");
    assert_eq!(mount_point("/caf\u{e9}/"), "/caf\u{e9}");
}

#[test]
fn fixed_paths() {
    assert_eq!(INDEX_HTML, "index.html");
    assert_eq!(RELOAD_PATH, "/_trunk/ws");
}

#[test]
fn table_without_proxies_holds_the_two_fixed_routes() {
    let cfg = config_with("/app/", None, Vec::new());
    let state = state_for(&cfg);
    let table = router(&state, &cfg);
    assert_eq!(table.routes.len(), 2);
    match &table.routes[0] {
        Route::StaticAssets { public_url, mount, dist_dir, fallback_file } => {
            assert_eq!(public_url, "/app/");
            assert_eq!(mount, "/app");
            assert_eq!(dist_dir, &PathBuf::from("/srv/dist"));
            assert_eq!(fallback_file, "index.html");
        }
        _ => panic!("the first route serves the static assets"),
    }
    assert!(matches!(&table.routes[1], Route::Reload { path } if path == "/_trunk/ws"));
}

#[test]
fn single_rule_takes_precedence_over_the_list() {
    let single = entry("http://localhost:9000", "/api", None, false, false);
    let listed = vec![
        entry("http://localhost:9001", "/one", None, false, false),
        entry("ws://localhost:9002", "/two", Some("/x"), true, false),
    ];
    let cfg = config_with("/", Some(single), listed);
    let state = state_for(&cfg);
    let table = router(&state, &cfg);
    assert_eq!(table.routes.len(), 3);
    assert!(matches!(&table.routes[0], Route::StaticAssets { .. }));
    assert!(matches!(&table.routes[1], Route::Reload { .. }));
    assert_eq!(
        proxy_summary(&table.routes[2]),
        (false, "/api".to_string(), "http://localhost:9000/api".to_string(), None)
    );
}

#[test]
fn single_websocket_rule_registers_a_websocket_route() {
    let single = entry("ws://localhost:9000", "/socket", Some("/live"), true, true);
    let cfg = config_with("/", Some(single), Vec::new());
    let state = state_for(&cfg);
    let table = router(&state, &cfg);
    assert_eq!(table.routes.len(), 3);
    assert_eq!(
        proxy_summary(&table.routes[2]),
        (true, "/socket".to_string(), "ws://localhost:9000/socket".to_string(), Some("/live".to_string()))
    );
}

#[test]
fn listed_rules_are_registered_in_their_order() {
    let listed = vec![
        entry("http://localhost:9001", "/one", None, false, false),
        entry("ws://localhost:9002", "/two", Some("/x"), true, false),
        entry("https://localhost:9003", "/three", Some("/y/"), false, true),
    ];
    let cfg = config_with("/", None, listed);
    let state = state_for(&cfg);
    let table = router(&state, &cfg);
    assert_eq!(table.routes.len(), 5);
    assert!(matches!(&table.routes[0], Route::StaticAssets { mount, .. } if mount == "/"));
    assert!(matches!(&table.routes[1], Route::Reload { path } if path == "/_trunk/ws"));
    assert_eq!(
        proxy_summary(&table.routes[2]),
        (false, "/one".to_string(), "http://localhost:9001/one".to_string(), None)
    );
    assert_eq!(
        proxy_summary(&table.routes[3]),
        (true, "/two".to_string(), "ws://localhost:9002/two".to_string(), Some("/x".to_string()))
    );
    assert_eq!(
        proxy_summary(&table.routes[4]),
        (false, "/three".to_string(), "https://localhost:9003/three".to_string(), Some("/y/".to_string()))
    );
}

#[test]
fn registration_keeps_the_routes_already_there() {
    let cfg = config_with("/", None, Vec::new());
    let state = state_for(&cfg);
    let table = router(&state, &cfg);
    let table = register_proxy(table, &entry("http://b", "/api", None, false, false), &state);
    let handler = ProxyHandlerWebSocket::new(Backend::new("ws://c".to_string(), "/ws".to_string()), None);
    let table = handler.register(table);
    let handler = ProxyHandlerHttp::new(
        reqwest::Client::new(),
        Backend::new("http://d".to_string(), "/d".to_string()),
        Some("/e".to_string()),
    );
    let table = handler.register(table);
    assert_eq!(table.routes.len(), 5);
    assert!(matches!(&table.routes[0], Route::StaticAssets { .. }));
    assert!(matches!(&table.routes[1], Route::Reload { path } if path == "/_trunk/ws"));
    assert_eq!(proxy_summary(&table.routes[2]).1, "/api");
    assert_eq!(proxy_summary(&table.routes[3]), (true, "/ws".to_string(), "ws://c/ws".to_string(), None));
    assert_eq!(
        proxy_summary(&table.routes[4]),
        (false, "/d".to_string(), "http://d/d".to_string(), Some("/e".to_string()))
    );
}

#[test]
fn a_new_table_is_empty() {
    assert_eq!(RouteTable::new().routes.len(), 0);
}

#[test]
fn scenario_single_http_backend() {
    let single = entry("http://localhost:9000", "/", None, false, false);
    let cfg = config_with("/", Some(single), Vec::new());
    let state = state_for(&cfg);
    let table = router(&state, &cfg);
    assert_eq!(table.routes.len(), 3);
    assert!(matches!(
        &table.routes[0],
        Route::StaticAssets { mount, fallback_file, .. } if mount == "/" && fallback_file == "index.html"
    ));
    assert!(matches!(&table.routes[1], Route::Reload { path } if path == "/_trunk/ws"));
    match &table.routes[2] {
        Route::ProxyHttp(handler) => {
            assert_eq!(handler.path(), "/");
            assert_eq!(handler.upstream("/"), Some("http://localhost:9000/".to_string()));
            assert_eq!(
                handler.upstream("/orders?id=7"),
                Some("http://localhost:9000/orders?id=7".to_string())
            );
        }
        _ => panic!("the rule asks for an HTTP proxy"),
    }
}

#[test]
fn registration_notices_name_path_and_backend() {
    let listed = vec![
        entry("http://localhost:9001", "/one", None, false, false),
        entry("ws://localhost:9002", "/two", Some("/x"), true, false),
    ];
    let cfg = config_with("/app/", None, listed);
    let state = state_for(&cfg);
    let table = router(&state, &cfg);
    let notices: Vec<Option<String>> = table.routes.iter().map(|route| route.notice("[server]")).collect();
    assert_eq!(
        notices,
        vec![
            Some("[server] serving static assets at -> /app/".to_string()),
            None,
            Some("[server] proxying /one -> http://localhost:9001/one".to_string()),
            Some("[server] proxying websocket /two -> ws://localhost:9002/two".to_string()),
        ]
    );
}
