//! What every request handler shares while the server listens.

use vstd::prelude::*;
use crate::config::ServerConfig;
use crate::outside::{subscribe_to, subscribed_to};

verus! {

/// Server state: made once, shared by all handlers, never changed.
pub struct State {
    /// A client instance used by proxies.
    pub client: reqwest::Client,
    /// A client instance used by proxies that accept any certificate.
    pub insecure_client: reqwest::Client,
    /// The location of the dist dir.
    pub dist_dir: std::path::PathBuf,
    /// The public URL from which assets are being served.
    pub public_url: String,
    /// The channel on which finished builds are announced.
    pub build_done_chan: tokio::sync::broadcast::Sender<()>,
    /// Whether to disable autoreload.
    pub no_autoreload: bool,
}

impl State {
    /// Construct a new instance. The autoreload switch is read from `cfg`.
    pub fn new(
        dist_dir: std::path::PathBuf,
        public_url: String,
        client: reqwest::Client,
        insecure_client: reqwest::Client,
        cfg: &ServerConfig,
        build_done_chan: tokio::sync::broadcast::Sender<()>,
    ) -> (state: State)
        ensures
            state.client == client,
            state.insecure_client == insecure_client,
            state.dist_dir == dist_dir,
            state.public_url == public_url,
            state.build_done_chan == build_done_chan,
            state.no_autoreload == cfg.no_autoreload,
    {
        State {
            client,
            insecure_client,
            dist_dir,
            public_url,
            build_done_chan,
            no_autoreload: cfg.no_autoreload,
        }
    }

    /// Opens a subscription to the build announcements: it sees every build
    /// that finishes from now on and none that finished before.
    pub fn subscribe(&self) -> (r: tokio::sync::broadcast::Receiver<()>)
        ensures
            subscribed_to(r, self.build_done_chan),
    {
        subscribe_to(&self.build_done_chan)
    }
}

} // verus!
