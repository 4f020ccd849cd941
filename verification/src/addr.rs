//! Network addresses as plain data: four octets or eight groups, how they
//! are classified and how they are written out.

use vstd::prelude::*;
use crate::text::{append_decimal, decimal};

verus! {

/// An IPv4 address, `a.b.c.d`.
#[derive(Clone, Copy, Debug, PartialEq, Eq, Structural)]
pub struct Ipv4 {
    pub a: u8,
    pub b: u8,
    pub c: u8,
    pub d: u8,
}

impl Ipv4 {
    /// The address `127.0.0.1`.
    pub open spec fn spec_localhost() -> Ipv4 {
        Ipv4 { a: 127, b: 0, c: 0, d: 1 }
    }

    /// In `127.0.0.0/8`.
    pub open spec fn spec_is_loopback(&self) -> bool {
        self.a == 127
    }

    /// In `10.0.0.0/8`, `172.16.0.0/12` or `192.168.0.0/16`.
    pub open spec fn spec_is_private(&self) -> bool {
        self.a == 10 || (self.a == 172 && 16 <= self.b <= 31) || (self.a == 192 && self.b == 168)
    }

    /// Exactly `0.0.0.0`.
    pub open spec fn spec_is_unspecified(&self) -> bool {
        self.a == 0 && self.b == 0 && self.c == 0 && self.d == 0
    }

    /// Dotted decimal: the four octets as numerals, joined by full stops.
    pub open spec fn text(self) -> Seq<char> {
        decimal(self.a as nat) + seq!['.'] + decimal(self.b as nat) + seq!['.'] + decimal(
            self.c as nat,
        ) + seq!['.'] + decimal(self.d as nat)
    }

    pub fn new(a: u8, b: u8, c: u8, d: u8) -> (r: Ipv4)
        ensures
            r == (Ipv4 { a, b, c, d }),
    {
        Ipv4 { a, b, c, d }
    }

    #[verifier::when_used_as_spec(spec_localhost)]
    pub fn localhost() -> (r: Ipv4)
        ensures
            r == Ipv4::spec_localhost(),
    {
        Ipv4 { a: 127, b: 0, c: 0, d: 1 }
    }

    #[verifier::when_used_as_spec(spec_is_loopback)]
    pub fn is_loopback(&self) -> (r: bool)
        ensures
            r == self.spec_is_loopback(),
    {
        self.a == 127
    }

    #[verifier::when_used_as_spec(spec_is_private)]
    pub fn is_private(&self) -> (r: bool)
        ensures
            r == self.spec_is_private(),
    {
        self.a == 10 || (self.a == 172 && 16 <= self.b && self.b <= 31) || (self.a == 192
            && self.b == 168)
    }

    #[verifier::when_used_as_spec(spec_is_unspecified)]
    pub fn is_unspecified(&self) -> (r: bool)
        ensures
            r == self.spec_is_unspecified(),
    {
        self.a == 0 && self.b == 0 && self.c == 0 && self.d == 0
    }

    /// Appends the dotted-decimal form to `out`.
    pub fn append_to(&self, out: &mut String)
        ensures
            final(out)@ == old(out)@ + self.text(),
    {
        proof {
            reveal_strlit(".");
        }
        append_decimal(out, self.a as u16);
        out.append(".");
        append_decimal(out, self.b as u16);
        out.append(".");
        append_decimal(out, self.c as u16);
        out.append(".");
        append_decimal(out, self.d as u16);
        assert(out@ =~= old(out)@ + self.text());
    }

    /// The dotted-decimal form.
    pub fn to_text(&self) -> (r: String)
        ensures
            r@ == self.text(),
    {
        let mut out = String::new();
        self.append_to(&mut out);
        assert(out@ =~= self.text());
        out
    }
}

/// An IPv6 address: its eight groups, and the text that stands for it
/// wherever the address is shown. The text is carried, never derived.
#[derive(Debug)]
pub struct Ipv6 {
    pub segments: [u16; 8],
    pub text: String,
}

impl Ipv6 {
    /// Exactly `::`, all eight groups zero.
    pub open spec fn spec_is_unspecified(&self) -> bool {
        forall|i: int| 0 <= i < 8 ==> self.segments@[i] == 0
    }

    #[verifier::when_used_as_spec(spec_is_unspecified)]
    pub fn is_unspecified(&self) -> (r: bool)
        ensures
            r == self.spec_is_unspecified(),
    {
        let mut i: usize = 0;
        while i < 8
            invariant
                i <= 8,
                forall|k: int| 0 <= k < i ==> self.segments@[k] == 0,
            decreases 8 - i,
        {
            if self.segments[i] != 0 {
                return false;
            }
            i += 1;
        }
        true
    }
}

impl Clone for Ipv6 {
    fn clone(&self) -> (r: Ipv6)
        ensures
            r.segments == self.segments,
            r.text@ == self.text@,
    {
        Ipv6 { segments: self.segments, text: self.text.clone() }
    }
}

/// The address a server binds to, or one that a network interface holds.
#[derive(Debug)]
pub enum IpAddress {
    V4(Ipv4),
    V6(Ipv6),
}

impl IpAddress {
    /// `0.0.0.0` or `::`.
    pub open spec fn spec_is_unspecified(&self) -> bool {
        match *self {
            IpAddress::V4(ip) => ip.spec_is_unspecified(),
            IpAddress::V6(ip) => ip.spec_is_unspecified(),
        }
    }

    /// The address as it is shown on its own.
    pub open spec fn text(self) -> Seq<char> {
        match self {
            IpAddress::V4(ip) => ip.text(),
            IpAddress::V6(ip) => ip.text@,
        }
    }

    /// The address with a port: `a.b.c.d:port`, or `[text]:port` for IPv6.
    pub open spec fn socket_text(self, port: u16) -> Seq<char> {
        match self {
            IpAddress::V4(ip) => ip.text() + seq![':'] + decimal(port as nat),
            IpAddress::V6(ip) => seq!['['] + ip.text@ + seq![']', ':'] + decimal(port as nat),
        }
    }

    #[verifier::when_used_as_spec(spec_is_unspecified)]
    pub fn is_unspecified(&self) -> (r: bool)
        ensures
            r == self.spec_is_unspecified(),
    {
        match self {
            IpAddress::V4(ip) => ip.is_unspecified(),
            IpAddress::V6(ip) => ip.is_unspecified(),
        }
    }

    /// Appends the address, as it is shown on its own, to `out`.
    pub fn append_to(&self, out: &mut String)
        ensures
            final(out)@ == old(out)@ + self.text(),
    {
        match self {
            IpAddress::V4(ip) => ip.append_to(out),
            IpAddress::V6(ip) => out.append(ip.text.as_str()),
        }
    }

    /// Appends the address with `port` to `out`.
    pub fn append_socket_to(&self, port: u16, out: &mut String)
        ensures
            final(out)@ == old(out)@ + self.socket_text(port),
    {
        proof {
            reveal_strlit(":");
            reveal_strlit("[");
            reveal_strlit("]:");
        }
        match self {
            IpAddress::V4(ip) => {
                ip.append_to(out);
                out.append(":");
                append_decimal(out, port);
            },
            IpAddress::V6(ip) => {
                out.append("[");
                out.append(ip.text.as_str());
                out.append("]:");
                append_decimal(out, port);
            },
        }
        assert(out@ =~= old(out)@ + self.socket_text(port));
    }
}

impl Clone for IpAddress {
    fn clone(&self) -> (r: IpAddress)
        ensures
            r.text() == self.text(),
            r.spec_is_unspecified() == self.spec_is_unspecified(),
            forall|port: u16| r.socket_text(port) == self.socket_text(port),
            self is V4 ==> r == *self,
            self matches IpAddress::V6(ip) ==> r matches IpAddress::V6(copy) && copy.segments
                == ip.segments && copy.text@ == ip.text@,
    {
        match self {
            IpAddress::V4(ip) => IpAddress::V4(*ip),
            IpAddress::V6(ip) => IpAddress::V6(ip.clone()),
        }
    }
}

} // verus!
