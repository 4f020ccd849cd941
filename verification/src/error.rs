//! What can go wrong, and what the client or the caller sees of it.

use vstd::prelude::*;
use vstd::std_specs::convert::FromSpecImpl;

verus! {

/// A failure while the server is set up. It ends the start; no task runs
/// on after it.
#[derive(Debug)]
pub enum SetupError {
    /// The proxy client could not be built.
    ProxyClient(reqwest::Error),
    /// The proxy client that accepts any certificate could not be built.
    InsecureProxyClient(reqwest::Error),
}

impl SetupError {
    /// What the failure is, in words.
    pub open spec fn spec_message(&self) -> Seq<char> {
        match *self {
            SetupError::ProxyClient(_) => "error building proxy client"@,
            SetupError::InsecureProxyClient(_) => "error building insecure proxy client"@,
        }
    }

    /// What the failure is, in words.
    pub fn message(&self) -> (r: &'static str)
        ensures
            r@ == self.spec_message(),
    {
        match self {
            SetupError::ProxyClient(_) => "error building proxy client",
            SetupError::InsecureProxyClient(_) => "error building insecure proxy client",
        }
    }
}

/// Names the failure to build a proxy client: the plain client where
/// `insecure` is false, the one that accepts any certificate where it is
/// true. A client that was built is handed on as it is.
pub fn proxy_client(made: Result<reqwest::Client, reqwest::Error>, insecure: bool) -> (r: Result<
    reqwest::Client,
    SetupError,
>)
    ensures
        r == match made {
            Ok(client) => Ok::<reqwest::Client, SetupError>(client),
            Err(cause) => Err(
                if insecure {
                    SetupError::InsecureProxyClient(cause)
                } else {
                    SetupError::ProxyClient(cause)
                },
            ),
        },
{
    match made {
        Ok(client) => Ok(client),
        Err(cause) => if insecure {
            Err(SetupError::InsecureProxyClient(cause))
        } else {
            Err(SetupError::ProxyClient(cause))
        },
    }
}

/// An error met while a request was handled. The client learns no more of
/// it than a status.
#[derive(Debug)]
pub struct ServerError(pub anyhow::Error);

impl From<anyhow::Error> for ServerError {
    fn from(src: anyhow::Error) -> (r: ServerError) {
        ServerError(src)
    }
}

impl FromSpecImpl<anyhow::Error> for ServerError {
    open spec fn obeys_from_spec() -> bool {
        true
    }

    open spec fn from_spec(src: anyhow::Error) -> ServerError {
        ServerError(src)
    }
}

/// The status of a response that reports an error of the server itself.
pub const INTERNAL_SERVER_ERROR: u16 = 500;

/// The status of a response that reports an unreachable backend.
pub const BAD_GATEWAY: u16 = 502;

impl ServerError {
    /// The status of the response that stands for this error: always the
    /// generic server error.
    pub fn status(&self) -> (r: u16)
        ensures
            r == INTERNAL_SERVER_ERROR,
    {
        INTERNAL_SERVER_ERROR
    }
}

/// What went wrong with one request before an answer was under way.
#[derive(Clone, Copy, Debug, PartialEq, Eq, Structural)]
pub enum RequestFailure {
    /// A file of the dist directory could not be read.
    StaticFile,
    /// The response could not be built.
    Internal,
    /// The backend could not be reached.
    BackendUnreachable,
    /// The backend refused to upgrade the connection.
    BackendUpgrade,
}

impl RequestFailure {
    /// The status that the client sees: the generic server error for a
    /// failure of the server itself, the gateway error for a backend that
    /// cannot be reached or does not upgrade.
    pub open spec fn spec_status(&self) -> u16 {
        match *self {
            RequestFailure::StaticFile => INTERNAL_SERVER_ERROR,
            RequestFailure::Internal => INTERNAL_SERVER_ERROR,
            RequestFailure::BackendUnreachable => BAD_GATEWAY,
            RequestFailure::BackendUpgrade => BAD_GATEWAY,
        }
    }

    /// The status of the response, which has an empty body.
    #[verifier::when_used_as_spec(spec_status)]
    pub fn status(&self) -> (r: u16)
        ensures
            r == self.spec_status(),
    {
        match self {
            RequestFailure::StaticFile => INTERNAL_SERVER_ERROR,
            RequestFailure::Internal => INTERNAL_SERVER_ERROR,
            RequestFailure::BackendUnreachable => BAD_GATEWAY,
            RequestFailure::BackendUpgrade => BAD_GATEWAY,
        }
    }
}

} // verus!
