use std::path::PathBuf;

use serve_core::addr::{IpAddress, Ipv4};
use serve_core::config::{Backend, ProxyEntry, ServerConfig};
use serve_core::router::Route;
use serve_core::serve::{
    plan_server, prepare_server, Action, Notice, Outcome, Phase, ServeSystem, Step, RELOAD_CHANNEL_CAPACITY,
};
use serve_core::shutdown::{ShutdownWiring, Transport};
use serve_core::state::State;
use tokio::sync::broadcast;
use tokio::sync::broadcast::error::TryRecvError;

fn serve_config(tls: bool, open: bool) -> ServerConfig {
    ServerConfig {
        address: IpAddress::V4(Ipv4::new(0, 0, 0, 0)),
        port: 8080,
        tls,
        open,
        no_autoreload: true,
        dist_dir: PathBuf::from("/srv/dist"),
        public_url: "/app/".to_string(),
        proxy: Some(ProxyEntry {
            backend: Backend::new("http://localhost:9000".to_string(), "/api".to_string()),
            rewrite: None,
            ws: false,
            insecure: true,
        }),
        proxies: Vec::new(),
    }
}

fn step_on(system: ServeSystem, last: Outcome) -> (ServeSystem, Step) {
    system.advance(last)
}

#[test]
fn state_keeps_what_it_is_made_of() {
    let cfg = serve_config(false, false);
    let (tx, _) = broadcast::channel::<()>(8);
    let state = State::new(
        PathBuf::from("/elsewhere"),
        "/pub/".to_string(),
        reqwest::Client::new(),
        reqwest::Client::new(),
        &cfg,
        tx.clone(),
    );
    assert_eq!(state.dist_dir, PathBuf::from("/elsewhere"));
    assert_eq!(state.public_url, "/pub/");
    assert!(state.no_autoreload);
    assert!(state.build_done_chan.same_channel(&tx));
}

#[test]
fn state_subscription_sees_later_builds_only() {
    let cfg = serve_config(false, false);
    let (tx, _keep) = broadcast::channel::<()>(8);
    let state = State::new(
        cfg.dist_dir.clone(),
        cfg.public_url.clone(),
        reqwest::Client::new(),
        reqwest::Client::new(),
        &cfg,
        tx.clone(),
    );
    tx.send(()).unwrap();
    let mut rx = state.subscribe();
    assert!(rx.same_channel(&_keep));
    assert_eq!(rx.try_recv(), Err(TryRecvError::Empty));
    tx.send(()).unwrap();
    assert_eq!(rx.try_recv(), Ok(()));
    assert_eq!(rx.try_recv(), Err(TryRecvError::Empty));
}

#[test]
fn new_system_shows_its_address_and_holds_both_senders() {
    let (tx, _probe) = broadcast::channel::<()>(1);
    let system = ServeSystem::new(serve_config(true, false), tx.clone());
    assert_eq!(system.phase(), Phase::Created);
    assert_eq!(system.http_addr(), "https://0.0.0.0:8080/app/");
    assert_eq!(system.config().port, 8080);
    assert!(system.shutdown_sender().unwrap().same_channel(&tx));
    assert!(system.reload_sender().is_some());
    assert_eq!(RELOAD_CHANNEL_CAPACITY, 8);
}

#[test]
fn reload_channel_holds_eight_announcements() {
    let (tx, _probe) = broadcast::channel::<()>(1);
    let system = ServeSystem::new(serve_config(false, false), tx);
    let sender = system.reload_sender().unwrap().clone();
    let mut rx = sender.subscribe();
    for _ in 0..8 {
        sender.send(()).unwrap();
    }
    assert_eq!(rx.try_recv(), Ok(()));
    for _ in 0..2 {
        sender.send(()).unwrap();
    }
    assert!(matches!(rx.try_recv(), Err(TryRecvError::Lagged(1))));
}

#[test]
fn plan_follows_the_configuration() {
    let cfg = serve_config(true, false);
    let (shutdown, shutdown_rx) = broadcast::channel::<()>(1);
    let (builds, _) = broadcast::channel::<()>(8);
    let plan = plan_server(&cfg, reqwest::Client::new(), reqwest::Client::new(), shutdown_rx, builds.clone());
    assert_eq!(plan.transport, Transport::Tls);
    assert_eq!(plan.wiring, ShutdownWiring::Forwarder { grace_secs: 0 });
    assert_eq!(plan.state.dist_dir, PathBuf::from("/srv/dist"));
    assert_eq!(plan.state.public_url, "/app/");
    assert!(plan.state.no_autoreload);
    assert!(plan.state.build_done_chan.same_channel(&builds));
    assert_eq!(plan.router.routes.len(), 3);
    assert!(matches!(&plan.router.routes[0], Route::StaticAssets { mount, .. } if mount == "/app"));
    let mut rx = plan.shutdown_rx;
    shutdown.send(()).unwrap();
    assert_eq!(rx.try_recv(), Ok(()));
}

#[test]
fn plaintext_plan_uses_the_server_hook() {
    let cfg = serve_config(false, false);
    let (_shutdown, shutdown_rx) = broadcast::channel::<()>(1);
    let (builds, _) = broadcast::channel::<()>(8);
    let plan = prepare_server(&cfg, shutdown_rx, builds).expect("both clients can be built");
    assert_eq!(plan.transport, Transport::Plain);
    assert_eq!(plan.wiring, ShutdownWiring::ServerHook);
    assert_eq!(plan.router.routes.len(), 3);
}

#[test]
fn run_without_browser_goes_through_every_phase() {
    let (tx, mut probe) = broadcast::channel::<()>(1);
    let system = ServeSystem::new(serve_config(false, false), tx);

    let (system, step) = step_on(system, Outcome::Succeeded);
    assert_eq!(system.phase(), Phase::Building);
    assert!(matches!(step.action, Action::Build));
    assert_eq!(step.notice, None);

    let before = system.reload_sender().unwrap().clone();
    let (system, step) = step_on(system, Outcome::Succeeded);
    assert_eq!(system.phase(), Phase::StartingWatch);
    assert!(matches!(step.action, Action::SpawnWatch));
    assert!(system.reload_sender().unwrap().same_channel(&before));

    let reload = system.reload_sender().unwrap().clone();
    let (system, step) = step_on(system, Outcome::Succeeded);
    assert_eq!(system.phase(), Phase::StartingServer);
    let mut plan = match step.action {
        Action::SpawnServer(plan) => plan,
        _ => panic!("the server is planned after the watch loop has started"),
    };
    assert!(plan.state.build_done_chan.same_channel(&reload));
    assert!(plan.shutdown_rx.same_channel(&probe));
    assert!(system.reload_sender().is_none());
    assert!(system.shutdown_sender().is_some());
    assert_eq!(probe.try_recv(), Err(TryRecvError::Empty));
    assert_eq!(plan.shutdown_rx.try_recv(), Err(TryRecvError::Empty));

    let (system, step) = step_on(system, Outcome::Succeeded);
    assert_eq!(system.phase(), Phase::JoiningWatch);
    assert!(matches!(step.action, Action::JoinWatch));
    assert!(system.shutdown_sender().is_none());
    assert_eq!(probe.try_recv(), Err(TryRecvError::Closed));
    assert_eq!(plan.shutdown_rx.try_recv(), Err(TryRecvError::Closed));

    let (system, step) = step_on(system, Outcome::Succeeded);
    assert_eq!(system.phase(), Phase::JoiningServer);
    assert!(matches!(step.action, Action::JoinServer));
    assert_eq!(step.notice, None);

    let (system, step) = step_on(system, Outcome::Succeeded);
    assert_eq!(system.phase(), Phase::Finished);
    assert!(matches!(step.action, Action::Finish));
    assert_eq!(step.notice, None);

    let (system, step) = step_on(system, Outcome::Succeeded);
    assert_eq!(system.phase(), Phase::Finished);
    assert!(matches!(step.action, Action::Nothing));
    assert_eq!(step.notice, None);
}

#[test]
fn run_with_browser_opens_the_display_address() {
    let (tx, mut probe) = broadcast::channel::<()>(1);
    let system = ServeSystem::new(serve_config(true, true), tx);
    let (system, _) = step_on(system, Outcome::Succeeded);
    let (system, _) = step_on(system, Outcome::Succeeded);
    let (system, step) = step_on(system, Outcome::Succeeded);
    assert!(matches!(step.action, Action::SpawnServer(_)));

    let (system, step) = step_on(system, Outcome::Succeeded);
    assert_eq!(system.phase(), Phase::OpeningBrowser);
    assert!(matches!(&step.action, Action::OpenBrowser(address) if address == "https://0.0.0.0:8080/app/"));
    assert!(system.shutdown_sender().is_some());
    assert_eq!(probe.try_recv(), Err(TryRecvError::Empty));

    let (system, step) = step_on(system, Outcome::Succeeded);
    assert_eq!(system.phase(), Phase::JoiningWatch);
    assert!(matches!(step.action, Action::JoinWatch));
    assert_eq!(step.notice, None);
    assert!(system.shutdown_sender().is_none());
    assert_eq!(probe.try_recv(), Err(TryRecvError::Closed));
}

#[test]
fn failures_are_reported_and_passed_over() {
    let (tx, _probe) = broadcast::channel::<()>(1);
    let system = ServeSystem::new(serve_config(false, true), tx);
    let (system, step) = step_on(system, Outcome::Failed);
    assert!(matches!(step.action, Action::Build));
    assert_eq!(step.notice, None);
    let (system, step) = step_on(system, Outcome::Failed);
    assert!(matches!(step.action, Action::SpawnWatch));
    assert_eq!(step.notice, None);
    let (system, step) = step_on(system, Outcome::Failed);
    assert!(matches!(step.action, Action::SpawnServer(_)));
    assert_eq!(step.notice, None);
    let (system, step) = step_on(system, Outcome::Failed);
    assert!(matches!(step.action, Action::OpenBrowser(_)));
    assert_eq!(step.notice, None);
    let (system, step) = step_on(system, Outcome::Failed);
    assert!(matches!(step.action, Action::JoinWatch));
    assert_eq!(step.notice, Some(Notice::BrowserNotOpened));
    let (system, step) = step_on(system, Outcome::Failed);
    assert!(matches!(step.action, Action::JoinServer));
    assert_eq!(step.notice, Some(Notice::WatchJoinFailed));
    let (system, step) = step_on(system, Outcome::Failed);
    assert!(matches!(step.action, Action::Finish));
    assert_eq!(step.notice, Some(Notice::ServerJoinFailed));
    assert_eq!(system.phase(), Phase::Finished);
    let (system, step) = step_on(system, Outcome::Failed);
    assert!(matches!(step.action, Action::Nothing));
    assert_eq!(step.notice, None);
    assert_eq!(system.phase(), Phase::Finished);
}

#[test]
fn an_outside_sender_keeps_the_signal_open() {
    let (tx, mut probe) = broadcast::channel::<()>(1);
    let outside = tx.clone();
    let system = ServeSystem::new(serve_config(false, false), tx);
    let (system, _) = step_on(system, Outcome::Succeeded);
    let (system, _) = step_on(system, Outcome::Succeeded);
    let (system, _) = step_on(system, Outcome::Succeeded);
    let (system, _) = step_on(system, Outcome::Succeeded);
    assert_eq!(system.phase(), Phase::JoiningWatch);
    assert_eq!(probe.try_recv(), Err(TryRecvError::Empty));
    drop(outside);
    assert_eq!(probe.try_recv(), Err(TryRecvError::Closed));
}

#[test]
fn prepared_clients_and_plan_are_made_before_the_watch_starts() {
    let (tx, _probe) = broadcast::channel::<()>(1);
    let system = ServeSystem::new(serve_config(false, false), tx);
    let (system, step) = step_on(system, Outcome::Succeeded);
    assert!(matches!(step.action, Action::Build));
    let (system, step) = step_on(system, Outcome::Succeeded);
    match step.action {
        Action::SpawnWatch => assert_eq!(system.phase(), Phase::StartingWatch),
        Action::Abort(_) => assert_eq!(system.phase(), Phase::Failed),
        _ => panic!("the set-up either lets the watch loop start or ends the run"),
    }
}

#[test]
fn each_proxy_client_can_be_built() {
    assert!(serve_core::serve::build_proxy_client(false).is_ok());
    assert!(serve_core::serve::build_proxy_client(true).is_ok());
}
