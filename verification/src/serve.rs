//! The life of the server: one build, then the watch loop and the network
//! server side by side, until both have ended.

use vstd::prelude::*;
use vstd::pervasive::unreached;
use crate::config::ServerConfig;
use crate::error::{proxy_client, SetupError};
use crate::outside::{
    capacity_asked, client_http1_alone, client_unchecked, new_channel, subscribe_to, subscribed_to,
};
use crate::router::{planned_routes, router, RouteTable};
use crate::shutdown::{shutdown_wiring, transport, transport_of, wiring_of, ShutdownWiring, Transport};
pub use crate::state::State;

verus! {

/// How many build announcements may wait, one by one, for a slow reload
/// connection. Of those beyond it the connection learns the number.
pub const RELOAD_CHANNEL_CAPACITY: usize = 8;

/// Where the life of the server stands: what was asked for last.
#[derive(Clone, Copy, Debug, PartialEq, Eq, Structural)]
pub enum Phase {
    /// Nothing was asked for yet.
    Created,
    /// The first build runs.
    Building,
    /// The server is set up and the watch loop is being started.
    StartingWatch,
    /// The network server is being started.
    StartingServer,
    /// The browser is being opened.
    OpeningBrowser,
    /// The end of the watch loop is awaited.
    JoiningWatch,
    /// The end of the network server is awaited.
    JoiningServer,
    /// Both tasks have ended.
    Finished,
    /// The set-up failed, before any task was started.
    Failed,
}

/// How the work that was asked for last has ended.
#[derive(Clone, Copy, Debug, PartialEq, Eq, Structural)]
pub enum Outcome {
    Succeeded,
    Failed,
}

/// A failure that is reported and then passed over.
#[derive(Clone, Copy, Debug, PartialEq, Eq, Structural)]
pub enum Notice {
    /// The browser could not be opened.
    BrowserNotOpened,
    /// The watch loop ended by a panic or was cancelled.
    WatchJoinFailed,
    /// The network server ended by a panic or was cancelled.
    ServerJoinFailed,
}

/// All that the network server is started with.
pub struct ServerPlan {
    /// What the request handlers share.
    pub state: State,
    /// The routes to serve.
    pub router: RouteTable,
    /// Whether to speak plaintext or TLS.
    pub transport: Transport,
    /// How the stop signal reaches the server.
    pub wiring: ShutdownWiring,
    /// The server's subscription to the stop signal.
    pub shutdown_rx: tokio::sync::broadcast::Receiver<()>,
}

impl ServerPlan {
    /// The plan is the one that `cfg` asks for: the state holds the
    /// configuration's directory, public URL and autoreload switch, the
    /// routes are those planned for this state, the transport follows the
    /// presence of TLS material and the wiring follows the transport.
    pub open spec fn fits(&self, cfg: &ServerConfig) -> bool {
        &&& self.state.dist_dir == cfg.dist_dir
        &&& self.state.public_url@ == cfg.public_url@
        &&& self.state.no_autoreload == cfg.no_autoreload
        &&& self.router@ == planned_routes(&self.state, cfg)
        &&& self.transport == transport_of(cfg.tls)
        &&& self.wiring == wiring_of(self.transport)
    }

    /// The two proxy clients are the ones asked for: both keep to HTTP/1,
    /// the plain one checks certificates, the other accepts any.
    pub open spec fn clients_fit(&self) -> bool {
        &&& !client_unchecked(self.state.client)
        &&& client_unchecked(self.state.insecure_client)
        &&& client_http1_alone(self.state.client)
        &&& client_http1_alone(self.state.insecure_client)
    }
}

/// What the owner of the server does next.
pub enum Action {
    /// Run one build. Its result decides nothing.
    Build,
    /// Start the watch loop as a task of its own.
    SpawnWatch,
    /// Start the network server as a task of its own.
    SpawnServer(ServerPlan),
    /// Open this address in a browser.
    OpenBrowser(String),
    /// Wait for the watch loop to end.
    JoinWatch,
    /// Wait for the network server to end.
    JoinServer,
    /// Return: the server has run and ended.
    Finish,
    /// Return this error: no task was ever started.
    Abort(SetupError),
    /// Nothing: the life of the server is over.
    Nothing,
}

/// One step of the server's life.
pub struct Step {
    /// What to do next.
    pub action: Action,
    /// What to report of the work that has just ended.
    pub notice: Option<Notice>,
}

/// Whether the system still holds its sender of the stop signal. It gives
/// the sender up before it waits for the tasks, so that the signal fires
/// once every other sender is gone as well.
pub open spec fn holds_shutdown_sender(phase: Phase) -> bool {
    phase == Phase::Created || phase == Phase::Building || phase == Phase::StartingWatch || phase
        == Phase::StartingServer || phase == Phase::OpeningBrowser
}

/// Whether the system still holds the sender of build announcements. It
/// hands the sender to the network server when it starts that server.
pub open spec fn holds_reload_sender(phase: Phase) -> bool {
    phase == Phase::Created || phase == Phase::Building || phase == Phase::StartingWatch
}

/// Whether the life of the server is over.
pub open spec fn is_final(phase: Phase) -> bool {
    phase == Phase::Finished || phase == Phase::Failed
}

/// The phase that follows `phase`. How the last work ended never decides
/// it; only a failed set-up of the server does, and the wish for a browser.
/// The server is set up when the first build has ended, before any task is
/// started: where that fails, the run is over with nothing running.
pub open spec fn next_phase(phase: Phase, open: bool, setup_failed: bool) -> Phase {
    match phase {
        Phase::Created => Phase::Building,
        Phase::Building => if setup_failed {
            Phase::Failed
        } else {
            Phase::StartingWatch
        },
        Phase::StartingWatch => Phase::StartingServer,
        Phase::StartingServer => if open {
            Phase::OpeningBrowser
        } else {
            Phase::JoiningWatch
        },
        Phase::OpeningBrowser => Phase::JoiningWatch,
        Phase::JoiningWatch => Phase::JoiningServer,
        Phase::JoiningServer => Phase::Finished,
        Phase::Finished => Phase::Finished,
        Phase::Failed => Phase::Failed,
    }
}

/// The phase reached from `phase` after a number of steps.
pub open spec fn phase_after(phase: Phase, open: bool, setup_failed: bool, steps: nat) -> Phase
    decreases steps,
{
    if steps == 0 {
        phase
    } else {
        phase_after(next_phase(phase, open, setup_failed), open, setup_failed, (steps - 1) as nat)
    }
}

/// What is reported when the work of `phase` has ended in `last`: a
/// browser that did not open, and a task that did not end in order.
pub open spec fn notice_for(phase: Phase, last: Outcome) -> Option<Notice> {
    if last == Outcome::Failed {
        match phase {
            Phase::OpeningBrowser => Some(Notice::BrowserNotOpened),
            Phase::JoiningWatch => Some(Notice::WatchJoinFailed),
            Phase::JoiningServer => Some(Notice::ServerJoinFailed),
            _ => None,
        }
    } else {
        None
    }
}

/// Whether `action` is what is asked for on leaving `phase`.
pub open spec fn expected_action(action: Action, phase: Phase, cfg: &ServerConfig) -> bool {
    match phase {
        Phase::Created => action is Build,
        Phase::Building => action is SpawnWatch || action is Abort,
        Phase::StartingWatch => match action {
            Action::SpawnServer(plan) => plan.fits(cfg) && plan.clients_fit(),
            _ => false,
        },
        Phase::StartingServer => if cfg.open {
            match action {
                Action::OpenBrowser(address) => address@ == cfg.display_address(),
                _ => false,
            }
        } else {
            action is JoinWatch
        },
        Phase::OpeningBrowser => action is JoinWatch,
        Phase::JoiningWatch => action is JoinServer,
        Phase::JoiningServer => action is Finish,
        Phase::Finished => action is Nothing,
        Phase::Failed => action is Nothing,
    }
}

/// Puts together what the network server is started with, from the two
/// proxy clients and the two channel ends.
pub fn plan_server(
    cfg: &ServerConfig,
    client: reqwest::Client,
    insecure_client: reqwest::Client,
    shutdown_rx: tokio::sync::broadcast::Receiver<()>,
    build_done_chan: tokio::sync::broadcast::Sender<()>,
) -> (plan: ServerPlan)
    ensures
        plan.fits(cfg),
        plan.state.client == client,
        plan.state.insecure_client == insecure_client,
        plan.state.build_done_chan == build_done_chan,
        plan.shutdown_rx == shutdown_rx,
{
    let state = State::new(
        cfg.dist_dir.clone(),
        cfg.public_url.clone(),
        client,
        insecure_client,
        cfg,
        build_done_chan,
    );
    let router = router(&state, cfg);
    let transport = transport(cfg.tls);
    let wiring = shutdown_wiring(transport);
    ServerPlan { state, router, transport, wiring, shutdown_rx }
}

/// Builds one proxy client for HTTP/1 only: one that accepts any
/// certificate where `insecure` is true, one that checks certificates where
/// it is false. Whether the client can be built is for the machine to say;
/// a failure is named after the client that was asked for.
pub fn build_proxy_client(insecure: bool) -> (r: Result<reqwest::Client, SetupError>)
    ensures
        match r {
            Ok(client) => client_unchecked(client) == insecure && client_http1_alone(client),
            Err(error) => error is InsecureProxyClient <==> insecure,
        },
{
    proxy_client(
        reqwest::ClientBuilder::new().http1_only().danger_accept_invalid_certs(insecure).build(),
        insecure,
    )
}

/// Builds the two proxy clients, the plain one first, and plans the server
/// with them. It fails where a client cannot be built, with the failure of
/// the first that could not.
pub fn prepare_server(
    cfg: &ServerConfig,
    shutdown_rx: tokio::sync::broadcast::Receiver<()>,
    build_done_chan: tokio::sync::broadcast::Sender<()>,
) -> (r: Result<ServerPlan, SetupError>)
    ensures
        match r {
            Ok(plan) => {
                &&& plan.fits(cfg)
                &&& plan.clients_fit()
                &&& plan.state.build_done_chan == build_done_chan
                &&& plan.shutdown_rx == shutdown_rx
            },
            Err(_) => true,
        },
{
    let client = match build_proxy_client(false) {
        Ok(client) => client,
        Err(error) => {
            return Err(error);
        },
    };
    let insecure_client = match build_proxy_client(true) {
        Ok(client) => client,
        Err(error) => {
            return Err(error);
        },
    };
    Ok(plan_server(cfg, client, insecure_client, shutdown_rx, build_done_chan))
}

/// A system encapsulating a build & watch system, responsible for serving
/// generated content. It decides each step of the server's life; its owner
/// carries the steps out.
pub struct ServeSystem {
    cfg: ServerConfig,
    http_addr: String,
    shutdown_tx: Option<tokio::sync::broadcast::Sender<()>>,
    build_done_chan: Option<tokio::sync::broadcast::Sender<()>>,
    plan: Option<ServerPlan>,
    phase: Phase,
}

impl ServeSystem {
    #[verifier::type_invariant]
    spec fn wf(&self) -> bool {
        &&& self.http_addr@ == self.cfg.display_address()
        &&& self.shutdown_tx is Some <==> holds_shutdown_sender(self.phase)
        &&& self.build_done_chan is Some <==> (self.phase == Phase::Created || self.phase
            == Phase::Building)
        &&& self.plan is Some <==> self.phase == Phase::StartingWatch
        &&& self.plan matches Some(plan) ==> {
            &&& plan.fits(&self.cfg)
            &&& plan.clients_fit()
            &&& subscribed_to(plan.shutdown_rx, self.shutdown_tx.unwrap())
        }
    }

    /// Where the life of the server stands.
    pub closed spec fn spec_phase(&self) -> Phase {
        self.phase
    }

    /// The configuration that the system was made with.
    pub closed spec fn spec_config(&self) -> ServerConfig {
        self.cfg
    }

    /// The sender of the stop signal, while the system holds it.
    pub closed spec fn spec_shutdown_sender(&self) -> Option<tokio::sync::broadcast::Sender<()>> {
        self.shutdown_tx
    }

    /// The sender of build announcements, while the system holds it: on
    /// its own at first, and within the plan of the server once that is
    /// made.
    pub closed spec fn spec_reload_sender(&self) -> Option<tokio::sync::broadcast::Sender<()>> {
        match self.build_done_chan {
            Some(sender) => Some(sender),
            None => match self.plan {
                Some(plan) => Some(plan.state.build_done_chan),
                None => None,
            },
        }
    }

    /// Construct a new instance: nothing is asked for yet, the address to
    /// show is derived from `cfg`, and a channel for build announcements is
    /// made, with room for eight of them.
    pub fn new(cfg: ServerConfig, shutdown: tokio::sync::broadcast::Sender<()>) -> (r: ServeSystem)
        ensures
            r.spec_phase() == Phase::Created,
            r.spec_config() == cfg,
            r.spec_shutdown_sender() == Some(shutdown),
            r.spec_reload_sender() matches Some(sender) && capacity_asked(sender)
                == RELOAD_CHANNEL_CAPACITY,
    {
        let (build_done_chan, _) = new_channel(RELOAD_CHANNEL_CAPACITY);
        let http_addr = cfg.http_addr();
        ServeSystem {
            cfg,
            http_addr,
            shutdown_tx: Some(shutdown),
            build_done_chan: Some(build_done_chan),
            plan: None,
            phase: Phase::Created,
        }
    }

    /// Where the life of the server stands.
    #[verifier::when_used_as_spec(spec_phase)]
    pub fn phase(&self) -> (r: Phase)
        ensures
            r == self.spec_phase(),
    {
        self.phase
    }

    /// The configuration that the system was made with.
    pub fn config(&self) -> (r: &ServerConfig)
        ensures
            *r == self.spec_config(),
    {
        &self.cfg
    }

    /// The address shown to the operator and opened in the browser.
    pub fn http_addr(&self) -> (r: &str)
        ensures
            r@ == self.spec_config().display_address(),
    {
        proof {
            use_type_invariant(self);
        }
        self.http_addr.as_str()
    }

    /// The sender of the stop signal. The system holds it until it waits
    /// for the tasks to end, and in no phase after that.
    pub fn shutdown_sender(&self) -> (r: Option<&tokio::sync::broadcast::Sender<()>>)
        ensures
            r is Some <==> holds_shutdown_sender(self.spec_phase()),
            r is Some ==> Some(*r.unwrap()) == self.spec_shutdown_sender(),
            r is None ==> self.spec_shutdown_sender() is None,
    {
        proof {
            use_type_invariant(self);
        }
        self.shutdown_tx.as_ref()
    }

    /// The sender of build announcements. The system holds it until it
    /// starts the network server, which then owns it.
    pub fn reload_sender(&self) -> (r: Option<&tokio::sync::broadcast::Sender<()>>)
        ensures
            r is Some <==> holds_reload_sender(self.spec_phase()),
            r is Some ==> Some(*r.unwrap()) == self.spec_reload_sender(),
            r is None ==> self.spec_reload_sender() is None,
    {
        proof {
            use_type_invariant(self);
        }
        match &self.build_done_chan {
            Some(sender) => Some(sender),
            None => match &self.plan {
                Some(plan) => Some(&plan.state.build_done_chan),
                None => None,
            },
        }
    }

    /// Takes the server's life one step on. `last` says how the work that
    /// was asked for by the step before has ended; the first step ignores
    /// it. The result holds the system in its next phase, what to do now,
    /// and what to report of the work that has ended.
    ///
    /// No outcome stops the run: a failed build, a browser that does not
    /// open and a task that ends badly are passed over. Only the set-up of
    /// the network server can fail. It is made when the first build has
    /// ended and before any task is started, so that a run which fails
    /// leaves nothing running. The server that is then started gets the
    /// system's own sender of build announcements and a subscription to the
    /// system's own stop signal.
    pub fn advance(self, last: Outcome) -> (r: (ServeSystem, Step))
        ensures
            r.0.spec_config() == self.spec_config(),
            r.0.spec_phase() == next_phase(
                self.spec_phase(),
                self.spec_config().open,
                r.1.action is Abort,
            ),
            r.1.notice == notice_for(self.spec_phase(), last),
            expected_action(r.1.action, self.spec_phase(), &self.spec_config()),
            r.1.action matches Action::SpawnServer(plan) ==> {
                &&& Some(plan.state.build_done_chan) == self.spec_reload_sender()
                &&& self.spec_shutdown_sender() is Some
                &&& subscribed_to(plan.shutdown_rx, self.spec_shutdown_sender().unwrap())
            },
            holds_shutdown_sender(r.0.spec_phase()) ==> r.0.spec_shutdown_sender()
                == self.spec_shutdown_sender(),
            !holds_shutdown_sender(r.0.spec_phase()) ==> r.0.spec_shutdown_sender() is None,
            holds_reload_sender(r.0.spec_phase()) ==> r.0.spec_reload_sender()
                == self.spec_reload_sender(),
            !holds_reload_sender(r.0.spec_phase()) ==> r.0.spec_reload_sender() is None,
    {
        proof {
            use_type_invariant(&self);
        }
        let ServeSystem { cfg, http_addr, shutdown_tx, build_done_chan, plan, phase } = self;
        match phase {
            Phase::Created => (
                ServeSystem {
                    cfg,
                    http_addr,
                    shutdown_tx,
                    build_done_chan,
                    plan: None,
                    phase: Phase::Building,
                },
                Step { action: Action::Build, notice: None },
            ),
            Phase::Building => match (shutdown_tx, build_done_chan) {
                (Some(shutdown), Some(build_done)) => {
                    let shutdown_rx = subscribe_to(&shutdown);
                    match prepare_server(&cfg, shutdown_rx, build_done) {
                        Ok(plan) => (
                            ServeSystem {
                                cfg,
                                http_addr,
                                shutdown_tx: Some(shutdown),
                                build_done_chan: None,
                                plan: Some(plan),
                                phase: Phase::StartingWatch,
                            },
                            Step { action: Action::SpawnWatch, notice: None },
                        ),
                        Err(error) => (
                            ServeSystem {
                                cfg,
                                http_addr,
                                shutdown_tx: None,
                                build_done_chan: None,
                                plan: None,
                                phase: Phase::Failed,
                            },
                            Step { action: Action::Abort(error), notice: None },
                        ),
                    }
                },
                _ => {
                    proof {
                        assert(false);
                    }
                    unreached()
                },
            },
            Phase::StartingWatch => match plan {
                Some(plan) => (
                    ServeSystem {
                        cfg,
                        http_addr,
                        shutdown_tx,
                        build_done_chan: None,
                        plan: None,
                        phase: Phase::StartingServer,
                    },
                    Step { action: Action::SpawnServer(plan), notice: None },
                ),
                None => {
                    proof {
                        assert(false);
                    }
                    unreached()
                },
            },
            Phase::StartingServer => if cfg.open {
                let address = http_addr.clone();
                (
                    ServeSystem {
                        cfg,
                        http_addr,
                        shutdown_tx,
                        build_done_chan: None,
                        plan: None,
                        phase: Phase::OpeningBrowser,
                    },
                    Step { action: Action::OpenBrowser(address), notice: None },
                )
            } else {
                (
                    ServeSystem {
                        cfg,
                        http_addr,
                        shutdown_tx: None,
                        build_done_chan: None,
                        plan: None,
                        phase: Phase::JoiningWatch,
                    },
                    Step { action: Action::JoinWatch, notice: None },
                )
            },
            Phase::OpeningBrowser => (
                ServeSystem {
                    cfg,
                    http_addr,
                    shutdown_tx: None,
                    build_done_chan: None,
                    plan: None,
                    phase: Phase::JoiningWatch,
                },
                Step {
                    action: Action::JoinWatch,
                    notice: match last {
                        Outcome::Failed => Some(Notice::BrowserNotOpened),
                        Outcome::Succeeded => None,
                    },
                },
            ),
            Phase::JoiningWatch => (
                ServeSystem {
                    cfg,
                    http_addr,
                    shutdown_tx: None,
                    build_done_chan: None,
                    plan: None,
                    phase: Phase::JoiningServer,
                },
                Step {
                    action: Action::JoinServer,
                    notice: match last {
                        Outcome::Failed => Some(Notice::WatchJoinFailed),
                        Outcome::Succeeded => None,
                    },
                },
            ),
            Phase::JoiningServer => (
                ServeSystem {
                    cfg,
                    http_addr,
                    shutdown_tx: None,
                    build_done_chan: None,
                    plan: None,
                    phase: Phase::Finished,
                },
                Step {
                    action: Action::Finish,
                    notice: match last {
                        Outcome::Failed => Some(Notice::ServerJoinFailed),
                        Outcome::Succeeded => None,
                    },
                },
            ),
            Phase::Finished => (
                ServeSystem {
                    cfg,
                    http_addr,
                    shutdown_tx: None,
                    build_done_chan: None,
                    plan: None,
                    phase: Phase::Finished,
                },
                Step { action: Action::Nothing, notice: None },
            ),
            Phase::Failed => (
                ServeSystem {
                    cfg,
                    http_addr,
                    shutdown_tx: None,
                    build_done_chan: None,
                    plan: None,
                    phase: Phase::Failed,
                },
                Step { action: Action::Nothing, notice: None },
            ),
        }
    }
}

/// A set-up that fails ends the run before any task is started: such a run
/// only ever stands where nothing was asked for, where the first build
/// runs, or in failure; and all that is asked for on the way there is the
/// build and the return of the error.
pub proof fn lemma_failed_setup_starts_nothing(open: bool, steps: nat)
    ensures
        ({
            let reached = phase_after(Phase::Created, open, true, steps);
            reached == Phase::Created || reached == Phase::Building || reached == Phase::Failed
        }),
        steps >= 2 ==> phase_after(Phase::Created, open, true, steps) == Phase::Failed,
        forall|action: Action, cfg: &ServerConfig|
            #[trigger] expected_action(action, Phase::Created, cfg) ==> action is Build,
        forall|action: Action, cfg: &ServerConfig|
            #[trigger] expected_action(action, Phase::Building, cfg) && next_phase(
                Phase::Building,
                open,
                action is Abort,
            ) == Phase::Failed ==> action is Abort,
{
    reveal_with_fuel(phase_after, 3);
    if steps >= 2 {
        lemma_phases_compose(Phase::Created, open, true, 2, (steps - 2) as nat);
        lemma_final_stays(Phase::Failed, open, true, (steps - 2) as nat);
    }
}

/// The life of the server ends within seven steps, whatever the outcomes
/// of its work: in failure where the set-up of the server fails, and else
/// with both tasks joined. Once over, it stays over.
pub proof fn lemma_lifecycle_ends(open: bool, setup_failed: bool, more: nat)
    ensures
        is_final(phase_after(Phase::Created, open, setup_failed, 7)),
        phase_after(Phase::Created, open, setup_failed, 7) == (if setup_failed {
            Phase::Failed
        } else {
            Phase::Finished
        }),
        phase_after(Phase::Created, open, setup_failed, 7 + more) == phase_after(
            Phase::Created,
            open,
            setup_failed,
            7,
        ),
{
    reveal_with_fuel(phase_after, 8);
    let end = phase_after(Phase::Created, open, setup_failed, 7);
    lemma_phases_compose(Phase::Created, open, setup_failed, 7, more);
    lemma_final_stays(end, open, setup_failed, more);
}

/// A life that is over stays as it is.
pub proof fn lemma_final_stays(phase: Phase, open: bool, setup_failed: bool, steps: nat)
    requires
        is_final(phase),
    ensures
        phase_after(phase, open, setup_failed, steps) == phase,
    decreases steps,
{
    if steps > 0 {
        lemma_final_stays(phase, open, setup_failed, (steps - 1) as nat);
    }
}

/// Steps taken one run after another add up.
pub proof fn lemma_phases_compose(phase: Phase, open: bool, setup_failed: bool, first: nat, second: nat)
    ensures
        phase_after(phase, open, setup_failed, first + second) == phase_after(
            phase_after(phase, open, setup_failed, first),
            open,
            setup_failed,
            second,
        ),
    decreases first,
{
    if first > 0 {
        lemma_phases_compose(
            next_phase(phase, open, setup_failed),
            open,
            setup_failed,
            (first - 1) as nat,
            second,
        );
    }
}

/// Once the system waits for the watch loop it holds no sender of the stop
/// signal any more, and two more steps end the run, however the two tasks
/// have ended.
pub proof fn lemma_run_returns_after_joins(open: bool, setup_failed: bool)
    ensures
        !holds_shutdown_sender(Phase::JoiningWatch),
        !holds_shutdown_sender(Phase::JoiningServer),
        phase_after(Phase::JoiningWatch, open, setup_failed, 2) == Phase::Finished,
{
    reveal_with_fuel(phase_after, 3);
}

} // verus!
