//! What the server is told to do: where to bind, what to serve, and which
//! request paths to hand to a backend.

use vstd::prelude::*;
use crate::addr::IpAddress;
use crate::text::{append_decimal, decimal};

verus! {

/// A backend's base URL in its parts: the origin (`scheme://authority`),
/// the path that follows it, and the query where the URL has one.
#[derive(Debug)]
pub struct Backend {
    pub origin: String,
    pub path: String,
    /// Shown with the URL. A forwarded request carries its own query.
    pub query: Option<String>,
}

/// The mathematical content of a [`Backend`].
pub struct BackendView {
    pub origin: Seq<char>,
    pub path: Seq<char>,
    pub query: Option<Seq<char>>,
}

impl BackendView {
    /// The whole URL: origin and path, then a question mark and the query
    /// where there is one.
    pub open spec fn url(self) -> Seq<char> {
        match self.query {
            Some(query) => self.origin + self.path + seq!['?'] + query,
            None => self.origin + self.path,
        }
    }
}

impl View for Backend {
    type V = BackendView;

    open spec fn view(&self) -> BackendView {
        BackendView { origin: self.origin@, path: self.path@, query: text_of(self.query) }
    }
}

impl Clone for Backend {
    fn clone(&self) -> (r: Backend)
        ensures
            r@ == self@,
    {
        Backend {
            origin: self.origin.clone(),
            path: self.path.clone(),
            query: clone_text(&self.query),
        }
    }
}

impl Backend {
    /// A backend without a query.
    pub fn new(origin: String, path: String) -> (r: Backend)
        ensures
            r@ == (BackendView { origin: origin@, path: path@, query: None }),
    {
        Backend { origin, path, query: None }
    }

    /// The whole URL.
    pub fn url(&self) -> (r: String)
        ensures
            r@ == self@.url(),
    {
        proof {
            reveal_strlit("?");
        }
        let mut out = self.origin.clone();
        out.append(self.path.as_str());
        match &self.query {
            Some(query) => {
                out.append("?");
                out.append(query.as_str());
            },
            None => {},
        }
        out
    }
}

/// The content of an optional text.
pub open spec fn text_of(value: Option<String>) -> Option<Seq<char>> {
    match value {
        Some(s) => Some(s@),
        None => None,
    }
}

/// Copies an optional text.
pub fn clone_text(value: &Option<String>) -> (r: Option<String>)
    ensures
        text_of(r) == text_of(*value),
{
    match value {
        Some(s) => Some(s.clone()),
        None => None,
    }
}

/// One proxy rule: requests under the backend's path go to the backend.
#[derive(Debug)]
pub struct ProxyEntry {
    /// Where requests are sent.
    pub backend: Backend,
    /// What takes the place of the mount path in a forwarded request.
    pub rewrite: Option<String>,
    /// Whether the route relays WebSocket connections.
    pub ws: bool,
    /// Whether the backend's certificate goes unchecked.
    pub insecure: bool,
}

/// The mathematical content of a [`ProxyEntry`].
pub struct ProxyEntryView {
    pub backend: BackendView,
    pub rewrite: Option<Seq<char>>,
    pub ws: bool,
    pub insecure: bool,
}

impl View for ProxyEntry {
    type V = ProxyEntryView;

    open spec fn view(&self) -> ProxyEntryView {
        ProxyEntryView {
            backend: self.backend@,
            rewrite: text_of(self.rewrite),
            ws: self.ws,
            insecure: self.insecure,
        }
    }
}

/// The scheme under which the server is reached: `https` with TLS, `http`
/// without.
pub open spec fn scheme_of(tls: bool) -> Seq<char> {
    if tls {
        "https"@
    } else {
        "http"@
    }
}

/// The scheme under which the server is reached.
pub fn scheme(tls: bool) -> (r: &'static str)
    ensures
        r@ == scheme_of(tls),
{
    if tls {
        "https"
    } else {
        "http"
    }
}

/// The server's configuration.
#[derive(Debug)]
pub struct ServerConfig {
    /// The address to bind.
    pub address: IpAddress,
    /// The port to bind.
    pub port: u16,
    /// Whether TLS material was supplied.
    pub tls: bool,
    /// Whether a browser is opened once the server runs.
    pub open: bool,
    /// Whether pages are told not to reload.
    pub no_autoreload: bool,
    /// The directory that holds the built assets.
    pub dist_dir: std::path::PathBuf,
    /// The URL path under which the assets are served.
    pub public_url: String,
    /// The single proxy rule. When present, `proxies` is not consulted.
    pub proxy: Option<ProxyEntry>,
    /// The proxy rules in order, used only where `proxy` is absent.
    pub proxies: Vec<ProxyEntry>,
}

impl ServerConfig {
    /// The proxy rules that are honoured, in order: the single rule alone
    /// where there is one, else the listed rules.
    pub open spec fn proxy_entries(&self) -> Seq<ProxyEntryView> {
        match self.proxy {
            Some(entry) => seq![entry@],
            None => self.proxies@.map_values(|e: ProxyEntry| e@),
        }
    }

    /// The address shown to the operator and opened in the browser:
    /// `scheme://address:port` followed by the public URL.
    pub open spec fn display_address(&self) -> Seq<char> {
        scheme_of(self.tls) + "://"@ + self.address.text() + seq![':'] + decimal(self.port as nat)
            + self.public_url@
    }

    /// The address shown to the operator and opened in the browser.
    pub fn http_addr(&self) -> (r: String)
        ensures
            r@ == self.display_address(),
    {
        proof {
            reveal_strlit(":");
        }
        let mut out = String::from_str(scheme(self.tls));
        out.append("://");
        self.address.append_to(&mut out);
        out.append(":");
        append_decimal(&mut out, self.port);
        out.append(self.public_url.as_str());
        assert(out@ =~= self.display_address());
        out
    }
}

} // verus!
