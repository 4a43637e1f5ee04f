//! The addresses of the UDP transport.

use vstd::prelude::*;

use crate::ble::BtAddr;
use crate::error::{Error, ErrorCode};
use crate::netif::{Ipv4Addr, Ipv6Addr};

verus! {

/// The address of a socket.
#[derive(Debug, Copy, Clone, PartialEq, Eq)]
#[allow(inconsistent_fields)]
pub enum SocketAddr {
    V4 { ip: Ipv4Addr, port: u16 },
    V6 { ip: Ipv6Addr, port: u16, flowinfo: u32, scope_id: u32 },
}

/// The address of a peer.
#[derive(Debug, Copy, Clone, PartialEq, Eq)]
pub enum Address {
    Udp(SocketAddr),
    Tcp(SocketAddr),
    Btp(BtAddr),
}

/// The socket that data for the peer is sent to. Only peers that are reached over UDP have one.
pub open spec fn dest_of(addr: Address) -> Result<SocketAddr, Error> {
    match addr {
        Address::Udp(addr) => Ok(addr),
        _ => Err(Error { code: ErrorCode::NoNetworkInterface }),
    }
}

/// The socket that data for the peer is sent to.
pub fn send_dest(addr: &Address) -> (r: Result<SocketAddr, Error>)
    ensures
        r == dest_of(*addr),
{
    match *addr {
        Address::Udp(addr) => Ok(addr),
        _ => Err(Error::from(ErrorCode::NoNetworkInterface)),
    }
}

/// The peer that data from the socket comes from.
pub fn recv_source(addr: SocketAddr) -> (r: Address)
    ensures
        r == Address::Udp(addr),
{
    Address::Udp(addr)
}

/// An answer goes back to the socket that the data came from.
pub proof fn law_answers_go_back(addr: SocketAddr)
    ensures
        dest_of(Address::Udp(addr)) == Ok::<SocketAddr, Error>(addr),
{
}

/// Data for a peer that is not reached over UDP is refused, and data for one that is goes to the
/// very socket that it is known under.
pub proof fn law_only_udp_peers_are_reached(addr: Address)
    ensures
        dest_of(addr) is Ok <==> addr is Udp,
        dest_of(addr) matches Ok(dest) ==> addr == Address::Udp(dest),
        dest_of(addr) matches Err(err) ==> err.code is NoNetworkInterface,
{
}

} // verus!
