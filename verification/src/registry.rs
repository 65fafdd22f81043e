//! The backend registry: which address serves which classification.
//!
//! A registry maps each classification to one fixed backend socket address,
//! loaded once from configuration and read-only afterwards. The defaults
//! mirror the classic deployment: the `SecureShell` class goes to the local
//! SSH daemon on port 22, the `Tunnel` class to the local VPN daemon on
//! port 1194. Addresses are held as plain IPv4 octets and a port, and can
//! be rendered to the ASCII `a.b.c.d:port` authority form the dialer needs.

use vstd::prelude::*;
use crate::sniff::Classification;

verus! {

/// One backend socket address: four IPv4 octets and a TCP port.
#[derive(Clone, Copy, Debug, PartialEq, Eq, Structural)]
pub struct BackendAddr {
    pub octet0: u8,
    pub octet1: u8,
    pub octet2: u8,
    pub octet3: u8,
    pub port: u16,
}

/// The fixed mapping from a classification to the backend serving it.
#[derive(Clone, Copy, Debug, PartialEq, Eq, Structural)]
pub struct BackendRegistry {
    pub secure_shell: BackendAddr,
    pub tunnel: BackendAddr,
}

/// The default SSH port.
pub const SSH_PORT: u16 = 22;

/// The default VPN (OpenVPN) port.
pub const TUNNEL_PORT: u16 = 1194;

/// The ASCII digits of `n` in decimal, most significant first, without
/// leading zeros (a single `0` for zero).
pub open spec fn decimal_digits(n: nat) -> Seq<u8>
    decreases n,
{
    if n < 10 {
        seq![(48 + n) as u8]
    } else {
        decimal_digits(n / 10) + seq![(48 + n % 10) as u8]
    }
}

/// The ASCII authority form `a.b.c.d:port` of an address.
pub open spec fn authority_bytes_of(addr: BackendAddr) -> Seq<u8> {
    decimal_digits(addr.octet0 as nat) + seq![46u8] + decimal_digits(addr.octet1 as nat)
        + seq![46u8] + decimal_digits(addr.octet2 as nat) + seq![46u8] + decimal_digits(
        addr.octet3 as nat,
    ) + seq![58u8] + decimal_digits(addr.port as nat)
}

/// Append the decimal digits of `n` to `out`.
fn push_decimal(n: u16, out: &mut Vec<u8>)
    ensures
        final(out)@ == old(out)@ + decimal_digits(n as nat),
    decreases n,
{
    if n < 10 {
        out.push(48 + (n as u8));
    } else {
        push_decimal(n / 10, out);
        out.push(48 + ((n % 10) as u8));
    }
}

impl BackendAddr {
    /// Make an address from its four IPv4 octets and a port.
    pub fn new(octet0: u8, octet1: u8, octet2: u8, octet3: u8, port: u16) -> (addr: BackendAddr)
        ensures
            addr == (BackendAddr { octet0, octet1, octet2, octet3, port }),
    {
        BackendAddr { octet0, octet1, octet2, octet3, port }
    }

    /// Render the address as the ASCII authority `a.b.c.d:port`, the form a
    /// dialer's connect call takes.
    pub fn authority(&self) -> (out: Vec<u8>)
        ensures
            out@ == authority_bytes_of(*self),
    {
        let mut out: Vec<u8> = Vec::new();
        push_decimal(self.octet0 as u16, &mut out);
        out.push(46);
        push_decimal(self.octet1 as u16, &mut out);
        out.push(46);
        push_decimal(self.octet2 as u16, &mut out);
        out.push(46);
        push_decimal(self.octet3 as u16, &mut out);
        out.push(58);
        push_decimal(self.port, &mut out);
        assert(out@ =~= authority_bytes_of(*self));
        out
    }
}

/// The ASCII bytes of the dual-stack wildcard authority `[::]:port` the
/// acceptor binds.
pub open spec fn listen_authority_bytes(port: u16) -> Seq<u8> {
    seq![91u8, 58u8, 58u8, 93u8, 58u8] + decimal_digits(port as nat)
}

/// Render the dual-stack listen authority `[::]:port` for the acceptor.
pub fn listen_authority(port: u16) -> (out: Vec<u8>)
    ensures
        out@ == listen_authority_bytes(port),
{
    let mut out: Vec<u8> = Vec::new();
    out.push(91);
    out.push(58);
    out.push(58);
    out.push(93);
    out.push(58);
    push_decimal(port, &mut out);
    assert(out@ =~= listen_authority_bytes(port));
    out
}

impl BackendRegistry {
    /// The classic deployment: SSH on the wildcard address port 22, the VPN
    /// on the wildcard address port 1194.
    pub fn defaults() -> (reg: BackendRegistry)
        ensures
            reg.secure_shell == (BackendAddr {
                octet0: 0u8,
                octet1: 0u8,
                octet2: 0u8,
                octet3: 0u8,
                port: SSH_PORT,
            }),
            reg.tunnel == (BackendAddr {
                octet0: 0u8,
                octet1: 0u8,
                octet2: 0u8,
                octet3: 0u8,
                port: TUNNEL_PORT,
            }),
    {
        BackendRegistry {
            secure_shell: BackendAddr { octet0: 0, octet1: 0, octet2: 0, octet3: 0, port: SSH_PORT },
            tunnel: BackendAddr { octet0: 0, octet1: 0, octet2: 0, octet3: 0, port: TUNNEL_PORT },
        }
    }

    /// The backend serving `class`: the mapping is total, each class has
    /// exactly its configured target.
    pub fn target_for(&self, class: Classification) -> (addr: BackendAddr)
        ensures
            class is SecureShell ==> addr == self.secure_shell,
            class is Tunnel ==> addr == self.tunnel,
    {
        match class {
            Classification::SecureShell => self.secure_shell,
            Classification::Tunnel => self.tunnel,
        }
    }
}

} // verus!
