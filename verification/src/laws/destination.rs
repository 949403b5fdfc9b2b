//! Which targets a request may ask for, and where its bytes go, field by field.

use std::sync::Arc;

use vstd::prelude::*;

use crate::addr::{IpAddr, NetworkAddress, SocketAddr};
use crate::inbound::{
    destination_check, fetched_destination_check, is_illegal_call, protocol_of, upstream_of,
    Config, Connection, DestinationCheck, Error, ProxyMode,
};
use crate::state::{
    Address, AppProtocol, DemandProxyState, GatewayAddress, Service, Workload,
};

verus! {

/// A target whose waypoint is a workload is allowed exactly where that workload lists the address
/// that the connection was made to. Otherwise it is denied, with the two addresses that differ.
pub proof fn lemma_target_behind_waypoint_workload(
    state: DemandProxyState,
    conn: Connection,
    local: Workload,
    hbone_addr: SocketAddr,
    target: Address,
    gateway: GatewayAddress,
    waypoint: Arc<Workload>,
)
    requires
        conn.dst.ip() != hbone_addr.ip(),
        local.application_tunnel is None,
        state.state.at_address(
            (NetworkAddress { network: conn.dst_network, address: hbone_addr.ip() }),
        ) == Some(target),
        target matches Address::Service(s) ==> s.waypoint == Some(gateway),
        target matches Address::Workload(w) ==> w.waypoint == Some(gateway),
        state.state.at_destination(gateway.destination) == Some(Address::Workload(waypoint)),
    ensures
        waypoint.workload_ips@.contains(conn.dst.ip()) ==> {
            &&& destination_check(state, conn, local, hbone_addr) == DestinationCheck::Allowed
            &&& fetched_destination_check(state.state, conn, local, hbone_addr) == Ok::<(), Error>(())
        },
        !waypoint.workload_ips@.contains(conn.dst.ip()) ==> {
            &&& destination_check(state, conn, local, hbone_addr) == DestinationCheck::Denied(
                Error::IPMismatch(conn.dst.ip(), hbone_addr.ip()),
            )
            &&& fetched_destination_check(state.state, conn, local, hbone_addr) == Err::<(), Error>(
                Error::IPMismatch(conn.dst.ip(), hbone_addr.ip()),
            )
        },
{
}

/// A target whose waypoint is a service is allowed exactly where one of the service's endpoints
/// has the uid of the workload that the connection was made to. Otherwise it is denied, with the
/// two addresses that differ.
pub proof fn lemma_target_behind_waypoint_service(
    state: DemandProxyState,
    conn: Connection,
    local: Workload,
    hbone_addr: SocketAddr,
    target: Address,
    gateway: GatewayAddress,
    waypoint: Arc<Service>,
)
    requires
        conn.dst.ip() != hbone_addr.ip(),
        local.application_tunnel is None,
        state.state.at_address(
            (NetworkAddress { network: conn.dst_network, address: hbone_addr.ip() }),
        ) == Some(target),
        target matches Address::Service(s) ==> s.waypoint == Some(gateway),
        target matches Address::Workload(w) ==> w.waypoint == Some(gateway),
        state.state.at_destination(gateway.destination) == Some(Address::Service(waypoint)),
    ensures
        (exists|k: int|
            0 <= k < waypoint.endpoints@.len() && (#[trigger] waypoint.endpoints@[k]).workload_uid@
                == local.uid@) ==> {
            &&& destination_check(state, conn, local, hbone_addr) == DestinationCheck::Allowed
            &&& fetched_destination_check(state.state, conn, local, hbone_addr) == Ok::<(), Error>(())
        },
        (forall|k: int|
            0 <= k < waypoint.endpoints@.len() ==> (#[trigger] waypoint.endpoints@[k]).workload_uid@
                != local.uid@) ==> {
            &&& destination_check(state, conn, local, hbone_addr) == DestinationCheck::Denied(
                Error::IPMismatch(conn.dst.ip(), hbone_addr.ip()),
            )
            &&& fetched_destination_check(state.state, conn, local, hbone_addr) == Err::<(), Error>(
                Error::IPMismatch(conn.dst.ip(), hbone_addr.ip()),
            )
        },
{
}

/// A known target that has no waypoint, or one that leads nowhere, is denied, whether or not the
/// proxy could ask for more.
pub proof fn lemma_target_without_waypoint_is_denied(
    state: DemandProxyState,
    conn: Connection,
    local: Workload,
    hbone_addr: SocketAddr,
    target: Address,
    reference: Option<GatewayAddress>,
)
    requires
        conn.dst.ip() != hbone_addr.ip(),
        local.application_tunnel is None,
        state.state.at_address(
            (NetworkAddress { network: conn.dst_network, address: hbone_addr.ip() }),
        ) == Some(target),
        target matches Address::Service(s) ==> s.waypoint == reference,
        target matches Address::Workload(w) ==> w.waypoint == reference,
        reference matches Some(gateway) ==> state.state.at_destination(gateway.destination) is None,
    ensures
        destination_check(state, conn, local, hbone_addr) == DestinationCheck::Denied(
            Error::IPMismatch(conn.dst.ip(), hbone_addr.ip()),
        ),
        fetched_destination_check(state.state, conn, local, hbone_addr) == Err::<(), Error>(
            Error::IPMismatch(conn.dst.ip(), hbone_addr.ip()),
        ),
{
}

/// A target that is not known is asked for once where the proxy can ask, on the connection's
/// network, and is denied otherwise.
pub proof fn lemma_unknown_target(
    state: DemandProxyState,
    conn: Connection,
    local: Workload,
    hbone_addr: SocketAddr,
)
    requires
        conn.dst.ip() != hbone_addr.ip(),
        local.application_tunnel is None,
        state.state.at_address(
            (NetworkAddress { network: conn.dst_network, address: hbone_addr.ip() }),
        ) is None,
    ensures
        state.on_demand ==> destination_check(state, conn, local, hbone_addr)
            == DestinationCheck::FetchOnDemand(
            NetworkAddress { network: conn.dst_network, address: hbone_addr.ip() },
        ),
        !state.on_demand ==> destination_check(state, conn, local, hbone_addr)
            == DestinationCheck::Denied(Error::IPMismatch(conn.dst.ip(), hbone_addr.ip())),
        fetched_destination_check(state.state, conn, local, hbone_addr) == Err::<(), Error>(
            Error::IPMismatch(conn.dst.ip(), hbone_addr.ip()),
        ),
{
}

/// Whatever is denied is denied with the address that the connection was made to and the one that
/// the request asks for, and those differ.
pub proof fn lemma_denied_with_both_addresses(
    state: DemandProxyState,
    conn: Connection,
    local: Workload,
    hbone_addr: SocketAddr,
    error: Error,
)
    requires
        destination_check(state, conn, local, hbone_addr) == DestinationCheck::Denied(error),
    ensures
        error == Error::IPMismatch(conn.dst.ip(), hbone_addr.ip()),
        conn.dst.ip() != hbone_addr.ip(),
        local.application_tunnel is None,
{
}

/// The decision on a target depends on nothing of the connection but its network and the address
/// that it was made to, on nothing of the workload but its uid and whether it has a tunnel, and on
/// nothing of the request but the IP address that it asks for.
pub proof fn lemma_decision_depends_on_addresses(
    state: DemandProxyState,
    conn: Connection,
    other_conn: Connection,
    local: Workload,
    other_local: Workload,
    hbone_addr: SocketAddr,
    other_addr: SocketAddr,
)
    requires
        conn.dst.ip() == other_conn.dst.ip(),
        conn.dst_network == other_conn.dst_network,
        local.uid == other_local.uid,
        local.application_tunnel is Some <==> other_local.application_tunnel is Some,
        hbone_addr.ip() == other_addr.ip(),
    ensures
        destination_check(state, conn, local, hbone_addr) == destination_check(
            state,
            other_conn,
            other_local,
            other_addr,
        ),
        fetched_destination_check(state.state, conn, local, hbone_addr)
            == fetched_destination_check(state.state, other_conn, other_local, other_addr),
{
    lemma_same_uid_is_behind_the_same(local, other_local);
}

/// Workloads of one uid are behind the same services.
proof fn lemma_same_uid_is_behind_the_same(local: Workload, other_local: Workload)
    requires
        local.uid == other_local.uid,
    ensures
        forall|s: Service| #[trigger] s.has_endpoint(local) == s.has_endpoint(other_local),
{
    assert forall|s: Service| #[trigger] s.has_endpoint(local) == s.has_endpoint(other_local) by {
        if s.has_endpoint(local) {
            let k = choose|k: int|
                0 <= k < s.endpoints@.len() && (#[trigger] s.endpoints@[k]).workload_uid@
                    == local.uid@;
            assert(s.endpoints@[k].workload_uid@ == other_local.uid@);
        }
        if s.has_endpoint(other_local) {
            let k = choose|k: int|
                0 <= k < s.endpoints@.len() && (#[trigger] s.endpoints@[k]).workload_uid@
                    == other_local.uid@;
            assert(s.endpoints@[k].workload_uid@ == local.uid@);
        }
    }
}

/// The bytes of a request go to the address that the connection was made to. The port is the one
/// that the request names, unless the workload has a tunnel that names another. What has to stand
/// in front of the bytes is what the tunnel says, and nothing where there is no tunnel.
pub proof fn lemma_upstream(
    conn: Connection,
    local: Workload,
    hbone_addr: SocketAddr,
    ip: IpAddr,
    port: u16,
)
    requires
        conn.dst.ip() == ip,
        port == hbone_addr.port(),
    ensures
        local.application_tunnel is None ==> {
            &&& upstream_of(conn, local, hbone_addr) == SocketAddr::new(ip, port)
            &&& protocol_of(local) == AppProtocol::NONE
        },
        local.application_tunnel matches Some(tunnel) ==> {
            &&& tunnel.port is None ==> upstream_of(conn, local, hbone_addr) == SocketAddr::new(
                ip,
                port,
            )
            &&& tunnel.port matches Some(own) ==> upstream_of(conn, local, hbone_addr)
                == SocketAddr::new(ip, own)
            &&& protocol_of(local) == tunnel.protocol
        },
{
}

/// A shared proxy refuses the ports that it is configured to refuse, and no other. Any other proxy
/// refuses none.
pub proof fn lemma_illegal_ports(cfg: Config, hbone_addr: SocketAddr)
    ensures
        cfg.proxy_mode == ProxyMode::Shared ==> (is_illegal_call(cfg, hbone_addr)
            <==> cfg.illegal_ports@.contains(hbone_addr.port())),
        cfg.proxy_mode != ProxyMode::Shared ==> !is_illegal_call(cfg, hbone_addr),
{
}

} // verus!
