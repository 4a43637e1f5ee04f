//! How multicast groups are joined.
//!
//! The sockets themselves are passed in.

use vstd::prelude::*;

use crate::error::{Error, ErrorCode, EspError};
use crate::netif::{Ipv4Addr, Ipv6Addr};

verus! {

/// The group to join and the interface to join it on: the bytes of the addresses, in their order
/// in memory.
#[derive(Debug, Copy, Clone, PartialEq, Eq)]
pub struct IpMreq {
    pub imr_multiaddr: [u8; 4],
    pub imr_interface: [u8; 4],
}

/// The error that a failure of a socket counts as.
pub open spec fn socket_error() -> Error {
    Error { code: ErrorCode::StdIoError }
}

/// Join an IPv6 multicast group. `join` asks the socket to join the group on the interface.
pub fn join_multicast_v6<F, E>(multiaddr: Ipv6Addr, interface: u32, join: F) -> (r: Result<(), Error>) where
    F: FnOnce(Ipv6Addr, u32) -> Result<(), E>,

    requires
        join.requires((multiaddr, interface)),
    ensures
        exists|joined: Result<(), E>| #[trigger]
            join.ensures((multiaddr, interface), joined) && (match joined {
                Ok(()) => r == Ok::<(), Error>(()),
                Err(_) => r == Err::<(), Error>(socket_error()),
            }),
{
    match join(multiaddr, interface) {
        Ok(()) => Ok(()),
        Err(_) => Err(Error::from(ErrorCode::StdIoError)),
    }
}

/// Join an IPv4 multicast group. `setsockopt` hands the socket the option to add a membership.
pub fn join_multicast_v4<F>(multiaddr: Ipv4Addr, interface: Ipv4Addr, setsockopt: F) -> (r: Result<(), Error>) where
    F: FnOnce(IpMreq) -> Result<(), EspError>,

    requires
        setsockopt.requires(((IpMreq { imr_multiaddr: multiaddr.0, imr_interface: interface.0 }),)),
    ensures
        exists|joined: Result<(), EspError>| #[trigger]
            setsockopt.ensures(
                ((IpMreq { imr_multiaddr: multiaddr.0, imr_interface: interface.0 }),),
                joined,
            ) && (match joined {
                Ok(()) => r == Ok::<(), Error>(()),
                Err(_) => r == Err::<(), Error>(socket_error()),
            }),
{
    match setsockopt(IpMreq { imr_multiaddr: multiaddr.0, imr_interface: interface.0 }) {
        Ok(()) => Ok(()),
        Err(_) => Err(Error::from(ErrorCode::StdIoError)),
    }
}

} // verus!
