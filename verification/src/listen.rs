//! What the operator is told about where the server listens.

use vstd::prelude::*;
use crate::addr::{IpAddress, Ipv4};
use crate::config::{scheme, scheme_of, ServerConfig};
use crate::text::{append_decimal, decimal};

verus! {

/// The marks that set off the lines of the announcement.
#[derive(Debug)]
pub struct Labels {
    /// Stands before every announcement of the server.
    pub server: String,
    /// Marks an address of this machine alone.
    pub local: String,
    /// Marks an address that other machines can reach.
    pub network: String,
}

/// The address as it is shown, where it is shown at all: an IPv4 address
/// that is private or loopback. No other address is shown.
pub open spec fn shown(ip: IpAddress) -> Option<Ipv4> {
    match ip {
        IpAddress::V4(v4) => if v4.is_private() || v4.is_loopback() {
            Some(v4)
        } else {
            None
        },
        IpAddress::V6(_) => None,
    }
}

/// The addresses shown for a server bound to the unspecified address: of
/// the interface addresses found, those that are shown, in their order; and
/// `127.0.0.1` alone where the interfaces could not be listed.
pub open spec fn shown_addresses(found: Option<Seq<IpAddress>>) -> Seq<Ipv4> {
    match found {
        Some(list) => list.filter_map(|ip: IpAddress| shown(ip)),
        None => seq![Ipv4::localhost()],
    }
}

/// The content of an optional list of addresses.
pub open spec fn found_view(found: Option<&Vec<IpAddress>>) -> Option<Seq<IpAddress>> {
    match found {
        Some(list) => Some(list@),
        None => None,
    }
}

/// One line of the announcement: four spaces, the mark for local or
/// network, a space, and `scheme://address:port`.
pub open spec fn listen_line(ip: Ipv4, tls: bool, port: u16, labels: &Labels) -> Seq<char> {
    "    "@ + (if ip.is_loopback() {
        labels.local@
    } else {
        labels.network@
    }) + seq![' '] + scheme_of(tls) + "://"@ + ip.text() + seq![':'] + decimal(port as nat)
}

/// The lines for `ips`, each but the first after a line break.
pub open spec fn listen_lines(ips: Seq<Ipv4>, tls: bool, port: u16, labels: &Labels) -> Seq<char>
    decreases ips.len(),
{
    if ips.len() == 0 {
        Seq::empty()
    } else if ips.len() == 1 {
        listen_line(ips[0], tls, port, labels)
    } else {
        listen_lines(ips.drop_last(), tls, port, labels) + seq!['\n'] + listen_line(
            ips.last(),
            tls,
            port,
            labels,
        )
    }
}

/// The announcement. For a server bound to the unspecified address: a
/// heading, then one line for each shown address. For any other: one line
/// with `scheme://` and the socket address.
pub open spec fn listening_text(
    cfg: &ServerConfig,
    found: Option<Seq<IpAddress>>,
    labels: &Labels,
) -> Seq<char> {
    if cfg.address.is_unspecified() {
        labels.server@ + " server listening at:\n"@ + listen_lines(
            shown_addresses(found),
            cfg.tls,
            cfg.port,
            labels,
        )
    } else {
        labels.server@ + " server listening at "@ + scheme_of(cfg.tls) + "://"@
            + cfg.address.socket_text(cfg.port)
    }
}

/// Whether the announcement lists the addresses of the network interfaces:
/// it does for a server bound to the unspecified address, and for no other.
pub fn lists_interfaces(cfg: &ServerConfig) -> (r: bool)
    ensures
        r == cfg.address.is_unspecified(),
{
    cfg.address.is_unspecified()
}

/// Picks the addresses to show for a server bound to the unspecified
/// address. `found` holds the addresses of the network interfaces, or
/// nothing where they could not be listed. Every address picked is private
/// or loopback.
pub fn displayed_addresses(found: Option<&Vec<IpAddress>>) -> (r: Vec<Ipv4>)
    ensures
        r@ == shown_addresses(found_view(found)),
        forall|i: int| 0 <= i < r@.len() ==> r@[i].is_private() || r@[i].is_loopback(),
{
    match found {
        None => {
            let mut out: Vec<Ipv4> = Vec::new();
            out.push(Ipv4::localhost());
            assert(out@ =~= seq![Ipv4::localhost()]);
            out
        },
        Some(list) => {
            let ghost f = |ip: IpAddress| shown(ip);
            let mut out: Vec<Ipv4> = Vec::new();
            let mut i: usize = 0;
            assert(list@.take(0).filter_map(f) =~= Seq::<Ipv4>::empty());
            while i < list.len()
                invariant
                    i <= list.len(),
                    f == (|ip: IpAddress| shown(ip)),
                    out@ == list@.take(i as int).filter_map(f),
                    forall|k: int|
                        0 <= k < out@.len() ==> out@[k].is_private() || out@[k].is_loopback(),
                decreases list.len() - i,
            {
                proof {
                    list@.lemma_filter_map_take_succ(f, i as int);
                }
                match &list[i] {
                    IpAddress::V4(v4) => {
                        if v4.is_private() || v4.is_loopback() {
                            out.push(*v4);
                        }
                    },
                    IpAddress::V6(_) => {},
                }
                i += 1;
            }
            assert(list@.take(i as int) =~= list@);
            out
        },
    }
}

/// Appends one line of the announcement to `out`.
fn append_listen_line(out: &mut String, ip: &Ipv4, tls: bool, port: u16, labels: &Labels)
    ensures
        final(out)@ == old(out)@ + listen_line(*ip, tls, port, labels),
{
    proof {
        reveal_strlit(" ");
        reveal_strlit(":");
    }
    out.append("    ");
    if ip.is_loopback() {
        out.append(labels.local.as_str());
    } else {
        out.append(labels.network.as_str());
    }
    out.append(" ");
    out.append(scheme(tls));
    out.append("://");
    ip.append_to(out);
    out.append(":");
    append_decimal(out, port);
    assert(out@ =~= old(out)@ + listen_line(*ip, tls, port, labels));
}

/// Writes the announcement of where the server listens. `found` is read
/// only for a server bound to the unspecified address.
pub fn listening_message(cfg: &ServerConfig, found: Option<&Vec<IpAddress>>, labels: &Labels) -> (r:
    String)
    ensures
        r@ == listening_text(cfg, found_view(found), labels),
{
    let mut out = labels.server.clone();
    if cfg.address.is_unspecified() {
        let ips = displayed_addresses(found);
        out.append(" server listening at:\n");
        let ghost head = out@;
        let mut i: usize = 0;
        assert(out@ =~= head + listen_lines(ips@.take(0), cfg.tls, cfg.port, labels));
        while i < ips.len()
            invariant
                i <= ips.len(),
                out@ == head + listen_lines(ips@.take(i as int), cfg.tls, cfg.port, labels),
            decreases ips.len() - i,
        {
            proof {
                reveal_strlit("\n");
                assert(ips@.take(i + 1).drop_last() =~= ips@.take(i as int));
                assert(ips@.take(i + 1).last() == ips@[i as int]);
                if i == 0 {
                    assert(ips@.take(0).len() == 0);
                }
            }
            if i > 0 {
                out.append("\n");
            }
            append_listen_line(&mut out, &ips[i], cfg.tls, cfg.port, labels);
            assert(out@ =~= head + listen_lines(ips@.take(i + 1), cfg.tls, cfg.port, labels));
            i += 1;
        }
        assert(ips@.take(i as int) =~= ips@);
        out
    } else {
        out.append(" server listening at ");
        out.append(scheme(cfg.tls));
        out.append("://");
        cfg.address.append_socket_to(cfg.port, &mut out);
        assert(out@ =~= listening_text(cfg, found_view(found), labels));
        out
    }
}

/// Only loopback and private IPv4 addresses are ever shown: each address
/// shown is one of those found, or `127.0.0.1` where none could be found,
/// and none is a public one.
pub proof fn lemma_only_local_addresses_shown(found: Option<Seq<IpAddress>>, i: int)
    requires
        0 <= i < shown_addresses(found).len(),
    ensures
        shown_addresses(found)[i].is_private() || shown_addresses(found)[i].is_loopback(),
        found matches Some(list) ==> list.contains(IpAddress::V4(shown_addresses(found)[i])),
{
    match found {
        None => {},
        Some(list) => {
            let f = |ip: IpAddress| shown(ip);
            let picked = list.filter_map(f)[i];
            assert(list.filter_map(f).contains(picked));
            list.lemma_filter_map_contains(f, picked);
            let source = choose|t: IpAddress| #[trigger] list.contains(t) && f(t) == Some(picked);
            assert(shown(source) == Some(picked));
            assert(source == IpAddress::V4(picked));
        },
    }
}

} // verus!
