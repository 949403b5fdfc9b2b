//! What the proxy decides for a request to one of its workloads.

use std::collections::HashSet;
use std::sync::Arc;

use vstd::prelude::*;

use crate::addr::{to_canonical, IpAddr, NetworkAddress, SocketAddr};
use crate::message::{H2Request, TRACEPARENT_HEADER};
use crate::state::{
    Address, AppProtocol, DemandProxyState, GatewayAddress, ProxyState, Service,
    Workload,
};
use crate::traceparent::{parsed_traceparent, TraceParent};

verus! {

/// Who a peer proved to be.
#[derive(Debug)]
pub struct Identity {
    pub trust_domain: String,
    pub namespace: String,
    pub service_account: String,
}

/// A connection that the proxy accepted.
#[derive(Debug)]
pub struct Connection {
    pub src_identity: Option<Identity>,
    pub src: SocketAddr,
    pub dst_network: String,
    pub dst: SocketAddr,
}

/// Whether the proxy serves a whole node or a single workload.
#[derive(Clone, Copy, Debug, PartialEq, Eq, Structural)]
pub enum ProxyMode {
    Shared,
    Dedicated,
}

/// What the proxy is configured with.
#[derive(Debug)]
pub struct Config {
    pub network: String,
    pub proxy_mode: ProxyMode,
    pub illegal_ports: HashSet<u16>,
}

/// Why the proxy refuses a request before it opens a connection.
#[derive(Debug)]
pub enum Error {
    /// The request's method, which is not `CONNECT`.
    NonConnectMethod(String),
    /// The request's target, which is no socket address.
    ConnectAddress(String),
    /// The address that the connection was made to, and the one that the request asks for.
    IPMismatch(IpAddr, IpAddr),
    /// The request asks for a port of the proxy itself.
    SelfCall,
}

/// Whether a request may ask for its target.
#[derive(Debug)]
pub enum DestinationCheck {
    Allowed,
    Denied(Error),
    /// The proxy has to fetch what it can of this address, and then look once more.
    FetchOnDemand(NetworkAddress),
}

/// The inbound side of the proxy.
pub struct Inbound {}

impl Clone for Identity {
    fn clone(&self) -> (copy: Self)
        ensures
            copy == *self,
    {
        Identity {
            trust_domain: self.trust_domain.clone(),
            namespace: self.namespace.clone(),
            service_account: self.service_account.clone(),
        }
    }
}

/// Copies an optional identity.
pub(crate) fn clone_identity(identity: &Option<Identity>) -> (copy: Option<Identity>)
    ensures
        copy == *identity,
{
    match identity {
        Some(i) => Some(i.clone()),
        None => None,
    }
}

impl Clone for Connection {
    fn clone(&self) -> (copy: Self)
        ensures
            copy == *self,
    {
        Connection {
            src_identity: clone_identity(&self.src_identity),
            src: self.src,
            dst_network: self.dst_network.clone(),
            dst: self.dst,
        }
    }
}

/// The waypoint of a service or a workload.
pub open spec fn waypoint_of(target: Address) -> Option<GatewayAddress> {
    match target {
        Address::Service(service) => service.waypoint,
        Address::Workload(workload) => workload.waypoint,
    }
}

/// Whether a waypoint is the one that a connection was made to: the waypoint is a service that
/// the connection's workload is behind, or a workload that has the connection's address.
pub open spec fn is_this_waypoint(waypoint: Address, conn: Connection, local: Workload) -> bool {
    match waypoint {
        Address::Service(service) => service.has_endpoint(local),
        Address::Workload(workload) => workload.has_ip(conn.dst.ip()),
    }
}

/// The address that a request asks for, on the connection's network.
pub open spec fn requested_address(conn: Connection, hbone_addr: SocketAddr) -> NetworkAddress {
    NetworkAddress { network: conn.dst_network, address: hbone_addr.ip() }
}

/// Whether what an address belongs to has, as its waypoint, the one that the connection was made
/// to. Nothing where the proxy does not know the address.
pub open spec fn targets_this_waypoint(
    state: ProxyState,
    conn: Connection,
    local: Workload,
    hbone_dst: NetworkAddress,
) -> Option<bool> {
    match state.at_address(hbone_dst) {
        Some(target) => Some(
            {
                &&& waypoint_of(target) matches Some(gateway)
                &&& state.at_destination(gateway.destination) matches Some(waypoint)
                &&& is_this_waypoint(waypoint, conn, local)
            },
        ),
        None => None,
    }
}

/// Whether a request may ask for its target whatever the proxy knows of it: the connection was
/// made to that very address, or the workload has a tunnel of its own and checks for itself.
pub open spec fn needs_no_lookup(
    conn: Connection,
    local: Workload,
    hbone_addr: SocketAddr,
) -> bool {
    conn.dst.ip() == hbone_addr.ip() || local.application_tunnel is Some
}

/// The refusal of a target that is not the workload's.
pub open spec fn ip_mismatch(conn: Connection, hbone_addr: SocketAddr) -> Error {
    Error::IPMismatch(conn.dst.ip(), hbone_addr.ip())
}

/// What the proxy decides of a target, with what it knows before it asks for more.
pub open spec fn destination_check(
    state: DemandProxyState,
    conn: Connection,
    local: Workload,
    hbone_addr: SocketAddr,
) -> DestinationCheck {
    if needs_no_lookup(conn, local, hbone_addr) {
        DestinationCheck::Allowed
    } else {
        match targets_this_waypoint(
            state.state,
            conn,
            local,
            requested_address(conn, hbone_addr),
        ) {
            Some(true) => DestinationCheck::Allowed,
            Some(false) => DestinationCheck::Denied(ip_mismatch(conn, hbone_addr)),
            None => if state.on_demand {
                DestinationCheck::FetchOnDemand(requested_address(conn, hbone_addr))
            } else {
                DestinationCheck::Denied(ip_mismatch(conn, hbone_addr))
            },
        }
    }
}

/// What the proxy decides of a target, with what it knows after it asked for more.
pub open spec fn fetched_destination_check(
    state: ProxyState,
    conn: Connection,
    local: Workload,
    hbone_addr: SocketAddr,
) -> Result<(), Error> {
    if targets_this_waypoint(state, conn, local, requested_address(conn, hbone_addr)) == Some(
        true,
    ) {
        Ok(())
    } else {
        Err(ip_mismatch(conn, hbone_addr))
    }
}

/// Where a request's bytes go: to the address that the connection was made to, at the port that
/// the workload's own tunnel names, or else at the port that the request names.
pub open spec fn upstream_of(
    conn: Connection,
    local: Workload,
    hbone_addr: SocketAddr,
) -> SocketAddr {
    SocketAddr::new(
        conn.dst.ip(),
        match local.application_tunnel {
            Some(tunnel) => match tunnel.port {
                Some(port) => port,
                None => hbone_addr.port(),
            },
            None => hbone_addr.port(),
        },
    )
}

/// What a workload's own tunnel wants to see in front of the bytes.
pub open spec fn protocol_of(local: Workload) -> AppProtocol {
    match local.application_tunnel {
        Some(tunnel) => tunnel.protocol,
        None => AppProtocol::NONE,
    }
}

/// Whether a request asks a shared proxy to forward to one of the proxy's own ports.
pub open spec fn is_illegal_call(cfg: Config, hbone_addr: SocketAddr) -> bool {
    cfg.proxy_mode == ProxyMode::Shared && cfg.illegal_ports@.contains(hbone_addr.port())
}

/// The trace context that a request carries: what its `traceparent` header spells, where it
/// spells one.
pub open spec fn carried(req: H2Request) -> Option<TraceParent> {
    match req.text_of(TRACEPARENT_HEADER@) {
        Some(text) => parsed_traceparent(text),
        None => None,
    }
}

/// The trace context of a request: the one that it carries, or else `fresh`.
pub open spec fn traceparent_of(req: H2Request, fresh: TraceParent) -> TraceParent {
    match carried(req) {
        Some(parsed) => parsed,
        None => fresh,
    }
}

impl Inbound {
    /// The connection that the proxy accepted from a peer. It is on the proxy's own network.
    pub fn accept(
        cfg: &Config,
        src_identity: Option<Identity>,
        peer: SocketAddr,
        dst: SocketAddr,
    ) -> (conn: Connection)
        ensures
            conn.src_identity == src_identity,
            conn.src == peer.canonical(),
            conn.dst_network == cfg.network,
            conn.dst == dst,
    {
        Connection {
            src_identity,
            src: to_canonical(peer),
            dst_network: cfg.network.clone(),
            dst,
        }
    }

    /// The trace context that a request carries, where it carries one.
    pub fn carried_traceparent(req: &H2Request) -> (traceparent: Option<TraceParent>)
        ensures
            traceparent == carried(*req),
    {
        proof {
            reveal_strlit("traceparent");
        }
        match req.header_text(TRACEPARENT_HEADER) {
            Some(text) => TraceParent::try_from(text),
            None => None,
        }
    }

    /// The trace context of a request, or a fresh one where the request carries none.
    pub fn extract_traceparent(req: &H2Request, fresh: TraceParent) -> (traceparent: TraceParent)
        ensures
            traceparent == traceparent_of(*req, fresh),
    {
        match Self::carried_traceparent(req) {
            Some(parsed) => parsed,
            None => fresh,
        }
    }

    /// Looks up whether the target of a request has, as its waypoint, the one that the
    /// connection was made to. Nothing where the target is not known.
    fn lookup_is_destination_this_waypoint(
        state: &ProxyState,
        conn: &Connection,
        local_workload: &Workload,
        hbone_dst: &NetworkAddress,
    ) -> (found: Option<bool>)
        ensures
            found == targets_this_waypoint(*state, *conn, *local_workload, *hbone_dst),
    {
        let target = match state.find_address(hbone_dst) {
            Some(target) => target,
            None => return None,
        };
        let waypoint = match &target {
            Address::Service(service) => &service.waypoint,
            Address::Workload(workload) => &workload.waypoint,
        };
        let destination = match waypoint {
            Some(gateway) => &gateway.destination,
            None => return Some(false),
        };
        match state.find_destination(destination) {
            Some(Address::Service(service)) => Some(service.contains_endpoint(local_workload)),
            Some(Address::Workload(workload)) => Some(workload.contains_ip(conn.dst.ip())),
            None => Some(false),
        }
    }

    /// Decides whether a request may ask for its target.
    pub fn validate_destination(
        state: &DemandProxyState,
        conn: &Connection,
        local_workload: &Workload,
        hbone_addr: SocketAddr,
    ) -> (check: DestinationCheck)
        ensures
            check == destination_check(*state, *conn, *local_workload, hbone_addr),
    {
        if conn.dst.ip() == hbone_addr.ip() {
            return DestinationCheck::Allowed;
        }
        if local_workload.application_tunnel.is_some() {
            return DestinationCheck::Allowed;
        }
        let hbone_dst = NetworkAddress {
            network: conn.dst_network.clone(),
            address: hbone_addr.ip(),
        };
        match Self::lookup_is_destination_this_waypoint(
            &state.state,
            conn,
            local_workload,
            &hbone_dst,
        ) {
            Some(true) => DestinationCheck::Allowed,
            Some(false) => DestinationCheck::Denied(
                Error::IPMismatch(conn.dst.ip(), hbone_addr.ip()),
            ),
            None => if state.on_demand {
                DestinationCheck::FetchOnDemand(hbone_dst)
            } else {
                DestinationCheck::Denied(Error::IPMismatch(conn.dst.ip(), hbone_addr.ip()))
            },
        }
    }

    /// Decides whether a request may ask for its target, after what can be known of the target
    /// was fetched: a target that is still not known is refused.
    pub fn validate_fetched_destination(
        state: &ProxyState,
        conn: &Connection,
        local_workload: &Workload,
        hbone_addr: SocketAddr,
    ) -> (checked: Result<(), Error>)
        ensures
            checked == fetched_destination_check(*state, *conn, *local_workload, hbone_addr),
    {
        let hbone_dst = NetworkAddress {
            network: conn.dst_network.clone(),
            address: hbone_addr.ip(),
        };
        match Self::lookup_is_destination_this_waypoint(state, conn, local_workload, &hbone_dst) {
            Some(true) => Ok(()),
            _ => Err(Error::IPMismatch(conn.dst.ip(), hbone_addr.ip())),
        }
    }

    /// Finds where a request's bytes go, what has to stand in front of them, and which services
    /// the workload is behind.
    pub fn find_inbound_upstream(
        state: &DemandProxyState,
        conn: &Connection,
        local_workload: &Workload,
        hbone_addr: SocketAddr,
    ) -> (upstream: (SocketAddr, AppProtocol, Vec<Arc<Service>>))
        ensures
            upstream.0 == upstream_of(*conn, *local_workload, hbone_addr),
            upstream.1 == protocol_of(*local_workload),
            upstream.2@ == state.state.services.of_workload(*local_workload),
    {
        let upstream_addr = SocketAddr::new(conn.dst.ip(), hbone_addr.port());
        let (upstream_addr, inbound_protocol) = match &local_workload.application_tunnel {
            Some(tunnel) => {
                let port = tunnel.port.unwrap_or(upstream_addr.port());
                (SocketAddr::new(upstream_addr.ip(), port), tunnel.protocol)
            },
            None => (upstream_addr, AppProtocol::NONE),
        };
        let services = state.state.services.get_by_workload(local_workload);
        (upstream_addr, inbound_protocol, services)
    }

    /// Whether a request asks a shared proxy to forward to one of the proxy's own ports. The
    /// request's port counts, and not the upstream port: a tunnel may lead to a port of the
    /// proxy on purpose.
    pub fn illegal_call(cfg: &Config, hbone_addr: SocketAddr) -> (illegal: bool)
        ensures
            illegal == is_illegal_call(*cfg, hbone_addr),
    {
        broadcast use vstd::std_specs::hash::group_hash_axioms;

        match cfg.proxy_mode {
            ProxyMode::Shared => cfg.illegal_ports.contains(&hbone_addr.port()),
            ProxyMode::Dedicated => false,
        }
    }
}

} // verus!
