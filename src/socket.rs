use vstd::prelude::*;
use crate::address::{Family, IpAddress, MulticastEndpoint, family_spec};

verus! {

/// What a session does with its socket.
#[derive(Clone, Copy, Debug, PartialEq, Eq, Structural)]
pub enum Role {
    /// Receives the group's traffic: binds the group port and joins.
    Listener,
    /// Sends to the group through a connected socket.
    Sender,
    /// Sends to the group per call and receives replies from any peer.
    Pinger,
}

/// The socket operations that make a session's socket ready, in order:
/// bind to the unspecified address of `family` on `bind_port`, then join
/// the group `join` on the default interface if there is one, then connect
/// to `connect` if there is one.
#[derive(Clone, Copy, Debug, PartialEq, Eq, Structural)]
pub struct SocketSetup {
    pub family: Family,
    pub bind_port: u16,
    pub join: Option<IpAddress>,
    pub connect: Option<MulticastEndpoint>,
}

/// A listener binds the wildcard address on the group's port and joins the
/// group; a sender binds an ephemeral port and connects to the group; a
/// pinger binds an ephemeral port and neither joins nor connects. All of
/// them use the endpoint's address family.
pub open spec fn socket_setup_spec(ep: MulticastEndpoint, role: Role) -> SocketSetup {
    match role {
        Role::Listener => SocketSetup {
            family: family_spec(ep.addr),
            bind_port: ep.port,
            join: Some(ep.addr),
            connect: None,
        },
        Role::Sender => SocketSetup {
            family: family_spec(ep.addr),
            bind_port: 0,
            join: None,
            connect: Some(ep),
        },
        Role::Pinger => SocketSetup {
            family: family_spec(ep.addr),
            bind_port: 0,
            join: None,
            connect: None,
        },
    }
}

/// The set-up plan of a socket for `ep` in the given role.
pub fn socket_setup(ep: MulticastEndpoint, role: Role) -> (r: SocketSetup)
    ensures
        r == socket_setup_spec(ep, role),
{
    let family = ep.addr.family();
    match role {
        Role::Listener => SocketSetup {
            family,
            bind_port: ep.port,
            join: Some(ep.addr),
            connect: None,
        },
        Role::Sender => SocketSetup { family, bind_port: 0, join: None, connect: Some(ep) },
        Role::Pinger => SocketSetup { family, bind_port: 0, join: None, connect: None },
    }
}

} // verus!
