//! Stopping: how the server is told to stop, and that it is told once.

use vstd::prelude::*;

verus! {

/// How the server speaks to its clients.
#[derive(Clone, Copy, Debug, PartialEq, Eq, Structural)]
pub enum Transport {
    /// Plaintext HTTP.
    Plain,
    /// HTTPS, TLS ended at the server.
    Tls,
}

/// How the stop signal reaches the listening server.
#[derive(Clone, Copy, Debug, PartialEq, Eq, Structural)]
pub enum ShutdownWiring {
    /// The server's own graceful-shutdown hook waits for the signal.
    ServerHook,
    /// A task of its own waits for the signal and then shuts the listening
    /// handle down, allowing open requests this many seconds.
    Forwarder { grace_secs: u64 },
}

/// What wakes a task that waits for the stop signal.
#[derive(Clone, Copy, Debug, PartialEq, Eq, Structural)]
pub enum ShutdownWake {
    /// A signal was sent.
    Signal,
    /// Every sender is gone.
    SendersGone,
    /// Signals were missed because too many were pending.
    Lagged,
}

/// Whether a waiting task has seen the stop signal yet.
#[derive(Clone, Copy, Debug, PartialEq, Eq, Structural)]
pub enum ShutdownWatch {
    /// Still waiting.
    Armed,
    /// The stop was seen and passed on.
    Fired,
}

/// The transport that a configuration selects: TLS where TLS material is
/// present, plaintext where it is not.
pub open spec fn transport_of(tls: bool) -> Transport {
    if tls {
        Transport::Tls
    } else {
        Transport::Plain
    }
}

/// The wiring for a transport: a forwarder without any grace period for
/// TLS, the server's own hook for plaintext.
pub open spec fn wiring_of(transport: Transport) -> ShutdownWiring {
    match transport {
        Transport::Tls => ShutdownWiring::Forwarder { grace_secs: 0 },
        Transport::Plain => ShutdownWiring::ServerHook,
    }
}

/// One step of a waiting task: the first wake of any kind fires the stop,
/// later ones do nothing.
pub open spec fn watch_step(watch: ShutdownWatch, wake: ShutdownWake) -> (ShutdownWatch, bool) {
    match watch {
        ShutdownWatch::Armed => (ShutdownWatch::Fired, true),
        ShutdownWatch::Fired => (ShutdownWatch::Fired, false),
    }
}

/// How often the stop is passed on over a run of wakes.
pub open spec fn stops_fired(watch: ShutdownWatch, wakes: Seq<ShutdownWake>) -> nat
    decreases wakes.len(),
{
    if wakes.len() == 0 {
        0
    } else {
        let (next, fired) = watch_step(watch, wakes[0]);
        (if fired {
            1nat
        } else {
            0nat
        }) + stops_fired(next, wakes.skip(1))
    }
}

/// Selects the transport.
pub fn transport(tls: bool) -> (r: Transport)
    ensures
        r == transport_of(tls),
{
    if tls {
        Transport::Tls
    } else {
        Transport::Plain
    }
}

/// Selects how the stop signal reaches the server.
pub fn shutdown_wiring(transport: Transport) -> (r: ShutdownWiring)
    ensures
        r == wiring_of(transport),
{
    match transport {
        Transport::Tls => ShutdownWiring::Forwarder { grace_secs: 0 },
        Transport::Plain => ShutdownWiring::ServerHook,
    }
}

/// Handles one wake of a waiting task. The result says in which state the
/// task is afterwards and whether the stop is to be passed on now.
pub fn on_shutdown_wake(watch: ShutdownWatch, wake: ShutdownWake) -> (r: (ShutdownWatch, bool))
    ensures
        r == watch_step(watch, wake),
{
    match watch {
        ShutdownWatch::Armed => (ShutdownWatch::Fired, true),
        ShutdownWatch::Fired => (ShutdownWatch::Fired, false),
    }
}

/// A task that has passed the stop on never does so again.
pub proof fn lemma_fired_stays_quiet(wakes: Seq<ShutdownWake>)
    ensures
        stops_fired(ShutdownWatch::Fired, wakes) == 0,
    decreases wakes.len(),
{
    if wakes.len() > 0 {
        lemma_fired_stays_quiet(wakes.skip(1));
    }
}

/// A waiting task passes the stop on exactly once, at its first wake,
/// whether that is a signal, the loss of every sender, or a lag.
pub proof fn lemma_stop_seen_exactly_once(wakes: Seq<ShutdownWake>)
    requires
        wakes.len() > 0,
    ensures
        watch_step(ShutdownWatch::Armed, wakes[0]).1,
        stops_fired(ShutdownWatch::Armed, wakes) == 1,
{
    lemma_fired_stays_quiet(wakes.skip(1));
}

/// When the last sender of the stop signal is gone, a waiting task passes
/// the stop on, as it does for a signal. Under TLS the listening handle is
/// then shut down without any grace period; in plaintext the server's own
/// hook does the stopping.
pub proof fn lemma_disposal_stops_the_server(tls: bool)
    ensures
        watch_step(ShutdownWatch::Armed, ShutdownWake::SendersGone) == (ShutdownWatch::Fired, true),
        watch_step(ShutdownWatch::Armed, ShutdownWake::SendersGone) == watch_step(
            ShutdownWatch::Armed,
            ShutdownWake::Signal,
        ),
        tls ==> wiring_of(transport_of(tls)) == (ShutdownWiring::Forwarder { grace_secs: 0 }),
        !tls ==> wiring_of(transport_of(tls)) == ShutdownWiring::ServerHook,
{
}

} // verus!
