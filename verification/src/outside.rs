//! What this library takes on trust from the crates it is built on: their
//! types, which it only carries, and the few functions it calls.

use vstd::prelude::*;

verus! {

/// `reqwest::Client`: an HTTP client, carried and handed on.
#[verifier::external_type_specification]
#[verifier::external_body]
pub struct ExClient(reqwest::Client);

/// `reqwest::ClientBuilder`: the settings from which a client is made.
#[verifier::external_type_specification]
#[verifier::external_body]
pub struct ExClientBuilder(reqwest::ClientBuilder);

/// `reqwest::Error`: why a client could not be made.
#[verifier::external_type_specification]
#[verifier::external_body]
pub struct ExClientError(reqwest::Error);

/// `tokio::sync::broadcast::Sender`: the sending half of a broadcast channel.
#[verifier::external_type_specification]
#[verifier::external_body]
#[verifier::reject_recursive_types(T)]
pub struct ExSender<T>(tokio::sync::broadcast::Sender<T>);

/// `tokio::sync::broadcast::Receiver`: one subscription to a broadcast channel.
#[verifier::external_type_specification]
#[verifier::external_body]
#[verifier::reject_recursive_types(T)]
pub struct ExReceiver<T>(tokio::sync::broadcast::Receiver<T>);

/// `std::path::PathBuf`: a location in the file system.
#[verifier::external_type_specification]
#[verifier::external_body]
pub struct ExPathBuf(std::path::PathBuf);

/// `anyhow::Error`: an error of any origin.
#[verifier::external_type_specification]
#[verifier::external_body]
pub struct ExAnyError(anyhow::Error);

/// Whether the settings, as they stand, ask that certificates go unchecked:
/// what `reqwest::ClientBuilder::danger_accept_invalid_certs` was last told,
/// and false where it was never called.
pub uninterp spec fn certs_unchecked(builder: reqwest::ClientBuilder) -> bool;

/// Whether the settings, as they stand, allow HTTP/1 alone: true once
/// `reqwest::ClientBuilder::http1_only` was called.
pub uninterp spec fn http1_alone(builder: reqwest::ClientBuilder) -> bool;

/// Whether the TLS set-up of the client to be built is made from these
/// settings, and not handed in ready-made. It is so for the default
/// settings, and stays so unless
/// `reqwest::ClientBuilder::use_preconfigured_tls` is called.
pub uninterp spec fn tls_from_settings(builder: reqwest::ClientBuilder) -> bool;

/// Whether the client accepts any certificate, as the settings it was built
/// from asked.
pub uninterp spec fn client_unchecked(client: reqwest::Client) -> bool;

/// Whether the client speaks HTTP/1 alone, as the settings it was built
/// from asked.
pub uninterp spec fn client_http1_alone(client: reqwest::Client) -> bool;

/// Whether the receiver is a subscription to the channel of the sender.
pub uninterp spec fn subscribed_to(
    receiver: tokio::sync::broadcast::Receiver<()>,
    sender: tokio::sync::broadcast::Sender<()>,
) -> bool;

/// The capacity that the channel of the sender was made with: how many
/// values it was asked to keep for a receiver that is behind. It keeps at
/// least as many.
pub uninterp spec fn capacity_asked(sender: tokio::sync::broadcast::Sender<()>) -> nat;

/// `reqwest::ClientBuilder::new` returns the default settings: certificates
/// are checked, no version of HTTP is preferred, and the TLS set-up will be
/// made from the settings.
pub assume_specification[ reqwest::ClientBuilder::new ]() -> (builder: reqwest::ClientBuilder)
    ensures
        !certs_unchecked(builder),
        !http1_alone(builder),
        tls_from_settings(builder),
;

/// `reqwest::ClientBuilder::http1_only` sets the preference to HTTP/1 and
/// leaves the stance on certificates, and where the TLS set-up comes from,
/// as they were.
pub assume_specification[ reqwest::ClientBuilder::http1_only ](
    builder: reqwest::ClientBuilder,
) -> (changed: reqwest::ClientBuilder)
    ensures
        http1_alone(changed),
        certs_unchecked(changed) == certs_unchecked(builder),
        tls_from_settings(changed) == tls_from_settings(builder),
;

/// `reqwest::ClientBuilder::danger_accept_invalid_certs` sets whether
/// certificates go unchecked and leaves the preferred version of HTTP, and
/// where the TLS set-up comes from, as they were.
pub assume_specification[ reqwest::ClientBuilder::danger_accept_invalid_certs ](
    builder: reqwest::ClientBuilder,
    accept_invalid_certs: bool,
) -> (changed: reqwest::ClientBuilder)
    ensures
        certs_unchecked(changed) == accept_invalid_certs,
        http1_alone(changed) == http1_alone(builder),
        tls_from_settings(changed) == tls_from_settings(builder),
;

/// `reqwest::ClientBuilder::build` makes the client, or fails where the TLS
/// backend or the resolver cannot be set up. Which of the two happens is not
/// claimed. Where the TLS set-up is made from the settings, a client that
/// is made follows them: it checks certificates unless they ask otherwise,
/// and it keeps to HTTP/1 where they ask for that. Of a client with a TLS
/// set-up handed in ready-made nothing is claimed.
pub assume_specification[ reqwest::ClientBuilder::build ](
    builder: reqwest::ClientBuilder,
) -> (made: Result<reqwest::Client, reqwest::Error>)
    ensures
        tls_from_settings(builder) ==> (made matches Ok(client) ==> client_unchecked(client)
            == certs_unchecked(builder) && client_http1_alone(client) == http1_alone(builder)),
;

/// Cloning a `reqwest::Client` gives another handle to the same client: the
/// two share one connection pool and one configuration.
pub assume_specification[ <reqwest::Client as Clone>::clone ](client: &reqwest::Client) -> (copy:
    reqwest::Client)
    ensures
        copy == *client,
;

/// Cloning a `std::path::PathBuf` gives an equal path.
pub assume_specification[ <std::path::PathBuf as Clone>::clone ](path: &std::path::PathBuf) -> (copy:
    std::path::PathBuf)
    ensures
        copy == *path,
;

/// `tokio::sync::broadcast::channel` makes a channel of the capacity asked
/// for and hands out its sender and a first receiver, which is subscribed
/// to it. It panics on a capacity of zero and on one above
/// `usize::MAX / 2`, so both are left out.
#[verifier::external_body]
pub(crate) fn new_channel(capacity: usize) -> (halves: (
    tokio::sync::broadcast::Sender<()>,
    tokio::sync::broadcast::Receiver<()>,
))
    requires
        0 < capacity <= usize::MAX / 2,
    ensures
        capacity_asked(halves.0) == capacity,
        subscribed_to(halves.1, halves.0),
{
    tokio::sync::broadcast::channel(capacity)
}

/// `tokio::sync::broadcast::Sender::subscribe` makes a receiver on the
/// sender's channel, which sees what is sent from now on. It panics only
/// once `usize::MAX / 4` receivers are alive at the same time, more than
/// memory can hold.
#[verifier::external_body]
pub(crate) fn subscribe_to(sender: &tokio::sync::broadcast::Sender<()>) -> (receiver:
    tokio::sync::broadcast::Receiver<()>)
    ensures
        subscribed_to(receiver, *sender),
{
    sender.subscribe()
}

} // verus!
