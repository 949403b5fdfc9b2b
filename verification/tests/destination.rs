use std::collections::HashSet;
use std::sync::Arc;

use inbound::addr::{to_canonical, IpAddr, NetworkAddress, SocketAddr};
use inbound::inbound::{
    Config, Connection, DestinationCheck, Error, Identity, Inbound, ProxyMode,
};
use inbound::state::{
    Address, AppProtocol, ApplicationTunnel, DemandProxyState, Destination, Endpoint,
    GatewayAddress, NamespacedHostname, ProxyState, Service, Workload,
};

const CLIENT_POD_IP: &str = "10.0.0.1";

const SERVER_POD_IP: &str = "10.0.0.2";
const SERVER_SVC_IP: &str = "10.10.0.1";

const WAYPOINT_POD_IP: &str = "10.0.0.3";
const WAYPOINT_SVC_IP: &str = "10.10.0.2";

const TARGET_PORT: u16 = 8080;
const PROXY_PORT: u16 = 15088;

const APP_TUNNEL_PROXY: Option<ApplicationTunnel> = Some(ApplicationTunnel {
    port: Some(PROXY_PORT),
    protocol: AppProtocol::PROXY,
});

fn ip(text: &str) -> IpAddr {
    let mut bits: u32 = 0;
    for part in text.split('.') {
        bits = bits * 256 + part.parse::<u32>().unwrap();
    }
    IpAddr::V4(bits)
}

fn network_addr(text: &str) -> NetworkAddress {
    NetworkAddress {
        network: "".to_string(),
        address: ip(text),
    }
}

// tells the test if we're using workload-attached or svc-attached waypoints
#[derive(Clone)]
enum Waypoint<'a> {
    Absent,
    Service(&'a str, Option<ApplicationTunnel>),
    Workload(&'a str, Option<ApplicationTunnel>),
}

fn gateway(addr: &str) -> GatewayAddress {
    GatewayAddress {
        destination: Destination::Address(network_addr(addr)),
        hbone_mtls_port: 15008,
    }
}

impl<'a> Waypoint<'a> {
    fn app_tunnel(&self) -> Option<ApplicationTunnel> {
        match self.clone() {
            Waypoint::Service(_, v) => v,
            Waypoint::Workload(_, v) => v,
            _ => None,
        }
    }
    fn service_attached(&self) -> Option<GatewayAddress> {
        let Waypoint::Service(s, _) = self else {
            return None;
        };
        Some(gateway(s))
    }
    fn workload_attached(&self) -> Option<GatewayAddress> {
        let Waypoint::Workload(w, _) = self else {
            return None;
        };
        Some(gateway(w))
    }
}

fn service(name: &str, vip: &str, waypoint: Option<GatewayAddress>) -> Service {
    Service {
        name: name.to_string(),
        namespace: "default".to_string(),
        hostname: format!("{name}.default.svc.cluster.local"),
        vips: vec![network_addr(vip)],
        endpoints: vec![Endpoint {
            workload_uid: format!("cluster1//v1/Pod/default/{name}"),
        }],
        waypoint,
    }
}

fn workload(
    name: &str,
    addr: &str,
    waypoint: Option<GatewayAddress>,
    application_tunnel: Option<ApplicationTunnel>,
) -> Workload {
    Workload {
        uid: format!("cluster1//v1/Pod/default/{name}"),
        name: format!("workload-{name}"),
        namespace: "default".to_string(),
        service_account: format!("service-account-{name}"),
        network: "".to_string(),
        hostname: "".to_string(),
        workload_ips: vec![ip(addr)],
        waypoint,
        application_tunnel,
    }
}

fn test_state(server_waypoint: Waypoint) -> DemandProxyState {
    let mut state = ProxyState::new();
    let services = vec![
        ("waypoint", WAYPOINT_SVC_IP, Waypoint::Absent),
        ("server", SERVER_SVC_IP, server_waypoint.clone()),
    ];
    let workloads = vec![
        (
            "waypoint",
            WAYPOINT_POD_IP,
            Waypoint::Absent,
            // the waypoint's _workload_ gets the app tunnel field
            server_waypoint.app_tunnel(),
        ),
        ("client", CLIENT_POD_IP, Waypoint::Absent, None),
        ("server", SERVER_POD_IP, server_waypoint, None),
    ];
    for (name, vip, waypoint) in services {
        state
            .services
            .insert(Arc::new(service(name, vip, waypoint.service_attached())));
    }
    for (name, addr, waypoint, app_tunnel) in workloads {
        state.workloads.insert(Arc::new(workload(
            name,
            addr,
            waypoint.workload_attached(),
            app_tunnel,
        )));
    }
    DemandProxyState {
        state,
        on_demand: false,
    }
}

fn connection(dst: &str) -> Connection {
    Connection {
        src_identity: None,
        src: SocketAddr::new(ip(CLIENT_POD_IP), 1234),
        dst_network: "".to_string(),
        dst: SocketAddr::new(ip(dst), 15008),
    }
}

fn find_upstream(
    target_waypoint: Waypoint,
    connection_dst: &str,
    hbone_dst: &str,
    want: Option<(&str, u16)>,
) {
    let state = test_state(target_waypoint);
    let conn = connection(connection_dst);
    let local_wl = state
        .state
        .workloads
        .find_address(&NetworkAddress {
            network: "".to_string(),
            address: conn.dst.ip(),
        })
        .unwrap();
    let hbone_addr = SocketAddr::new(ip(hbone_dst), TARGET_PORT);
    let res = match Inbound::validate_destination(&state, &conn, &local_wl, hbone_addr) {
        DestinationCheck::Allowed => Ok(Inbound::find_inbound_upstream(
            &state, &conn, &local_wl, hbone_addr,
        )),
        DestinationCheck::Denied(e) => Err(e),
        DestinationCheck::FetchOnDemand(_) => panic!("nothing can be fetched"),
    };
    match want {
        Some((want_ip, port)) => {
            let got_addr = res.expect("found upstream").0;
            assert_eq!(got_addr, SocketAddr::new(ip(want_ip), port))
        }
        None => match res {
            Ok(_) => panic!("did not find upstream"),
            Err(e) => assert!(matches!(
                e,
                Error::IPMismatch(a, b) if a == conn.dst.ip() && b == hbone_addr.ip()
            )),
        },
    }
}

#[test]
fn test_find_inbound_upstream() {
    // to workload no waypoint
    find_upstream(
        Waypoint::Absent,
        SERVER_POD_IP,
        SERVER_POD_IP,
        Some((SERVER_POD_IP, TARGET_PORT)),
    );
    // to workload with waypoint referenced by pod
    find_upstream(
        Waypoint::Workload(WAYPOINT_POD_IP, None),
        WAYPOINT_POD_IP,
        SERVER_POD_IP,
        Some((WAYPOINT_POD_IP, TARGET_PORT)),
    );
    // to workload with waypoint referenced by vip
    find_upstream(
        Waypoint::Workload(WAYPOINT_SVC_IP, None),
        WAYPOINT_POD_IP,
        SERVER_POD_IP,
        Some((WAYPOINT_POD_IP, TARGET_PORT)),
    );
    // to workload with app tunnel
    find_upstream(
        Waypoint::Workload(WAYPOINT_SVC_IP, APP_TUNNEL_PROXY),
        WAYPOINT_POD_IP,
        SERVER_POD_IP,
        Some((WAYPOINT_POD_IP, PROXY_PORT)),
    );
    // to service with waypoint referenced by pod
    find_upstream(
        Waypoint::Service(WAYPOINT_POD_IP, None),
        WAYPOINT_POD_IP,
        SERVER_SVC_IP,
        Some((WAYPOINT_POD_IP, TARGET_PORT)),
    );
    // to service with waypint referenced by vip
    find_upstream(
        Waypoint::Service(WAYPOINT_SVC_IP, None),
        WAYPOINT_POD_IP,
        SERVER_SVC_IP,
        Some((WAYPOINT_POD_IP, TARGET_PORT)),
    );
    // to service with app tunnel
    find_upstream(
        Waypoint::Service(WAYPOINT_SVC_IP, APP_TUNNEL_PROXY),
        WAYPOINT_POD_IP,
        SERVER_SVC_IP,
        Some((WAYPOINT_POD_IP, PROXY_PORT)),
    );
    // to server ip mismatch
    find_upstream(Waypoint::Absent, SERVER_POD_IP, CLIENT_POD_IP, None);
    // to waypoint without attachment
    find_upstream(Waypoint::Absent, WAYPOINT_POD_IP, CLIENT_POD_IP, None);
    // to workload via waypoint with wrong attachment
    find_upstream(
        Waypoint::Service(WAYPOINT_POD_IP, None),
        WAYPOINT_POD_IP,
        SERVER_POD_IP,
        None,
    );
    // to service via waypoint with wrong attachment
    find_upstream(
        Waypoint::Workload(WAYPOINT_POD_IP, None),
        WAYPOINT_POD_IP,
        SERVER_SVC_IP,
        None,
    );
}

#[test]
fn unknown_target_is_fetched_where_that_is_possible() {
    let mut state = test_state(Waypoint::Absent);
    let conn = connection(SERVER_POD_IP);
    let local = workload("server", SERVER_POD_IP, None, None);
    let unknown = SocketAddr::new(ip("10.0.0.99"), TARGET_PORT);
    assert!(matches!(
        Inbound::validate_destination(&state, &conn, &local, unknown),
        DestinationCheck::Denied(Error::IPMismatch(_, _))
    ));
    state.on_demand = true;
    match Inbound::validate_destination(&state, &conn, &local, unknown) {
        DestinationCheck::FetchOnDemand(addr) => {
            assert_eq!(addr.network, "");
            assert_eq!(addr.address, ip("10.0.0.99"));
        }
        _ => panic!("the target is unknown"),
    }
    assert!(matches!(
        Inbound::validate_fetched_destination(&state.state, &conn, &local, unknown),
        Err(Error::IPMismatch(a, b)) if a == ip(SERVER_POD_IP) && b == ip("10.0.0.99")
    ));
    // a known target is not fetched
    assert!(matches!(
        Inbound::validate_destination(
            &state,
            &conn,
            &local,
            SocketAddr::new(ip(CLIENT_POD_IP), TARGET_PORT)
        ),
        DestinationCheck::Denied(_)
    ));
}

#[test]
fn fetched_target_with_this_waypoint_is_allowed() {
    let state = test_state(Waypoint::Workload(WAYPOINT_POD_IP, None));
    let conn = connection(WAYPOINT_POD_IP);
    let local = workload("waypoint", WAYPOINT_POD_IP, None, None);
    let target = SocketAddr::new(ip(SERVER_POD_IP), TARGET_PORT);
    assert!(
        Inbound::validate_fetched_destination(&state.state, &conn, &local, target).is_ok()
    );
}

#[test]
fn waypoint_may_be_referenced_by_hostname() {
    let mut state = test_state(Waypoint::Absent);
    let by_name = |hostname: &str| {
        Some(GatewayAddress {
            destination: Destination::Hostname(NamespacedHostname {
                namespace: "default".to_string(),
                hostname: hostname.to_string(),
            }),
            hbone_mtls_port: 15008,
        })
    };
    let conn = connection(WAYPOINT_POD_IP);
    let local = workload("waypoint", WAYPOINT_POD_IP, None, None);
    let target = SocketAddr::new(ip(SERVER_POD_IP), TARGET_PORT);
    state.state.workloads.insert(Arc::new(workload(
        "server",
        SERVER_POD_IP,
        by_name("waypoint.default.svc.cluster.local"),
        None,
    )));
    assert!(matches!(
        Inbound::validate_destination(&state, &conn, &local, target),
        DestinationCheck::Allowed
    ));
    state.state.workloads.insert(Arc::new(workload(
        "server",
        SERVER_POD_IP,
        by_name("elsewhere.default.svc.cluster.local"),
        None,
    )));
    assert!(matches!(
        Inbound::validate_destination(&state, &conn, &local, target),
        DestinationCheck::Denied(_)
    ));
}

#[test]
fn tunnel_without_port_keeps_the_requested_port() {
    let state = test_state(Waypoint::Absent);
    let conn = connection(SERVER_POD_IP);
    let local = workload(
        "server",
        SERVER_POD_IP,
        None,
        Some(ApplicationTunnel {
            port: None,
            protocol: AppProtocol::PROXY,
        }),
    );
    let (addr, protocol, services) = Inbound::find_inbound_upstream(
        &state,
        &conn,
        &local,
        SocketAddr::new(ip(CLIENT_POD_IP), TARGET_PORT),
    );
    assert_eq!(addr, SocketAddr::new(ip(SERVER_POD_IP), TARGET_PORT));
    assert_eq!(protocol, AppProtocol::PROXY);
    assert_eq!(services.len(), 1);
    assert_eq!(services[0].name, "server");
}

#[test]
fn upstream_has_no_scope() {
    let state = test_state(Waypoint::Absent);
    let mut conn = connection(SERVER_POD_IP);
    conn.dst = SocketAddr::V6 {
        ip6: 7,
        port: 15008,
        flowinfo: 3,
        scope_id: 4,
    };
    let local = workload("other", "10.0.0.9", None, None);
    let (addr, protocol, services) = Inbound::find_inbound_upstream(
        &state,
        &conn,
        &local,
        SocketAddr::new(ip(CLIENT_POD_IP), TARGET_PORT),
    );
    assert_eq!(
        addr,
        SocketAddr::V6 {
            ip6: 7,
            port: TARGET_PORT,
            flowinfo: 0,
            scope_id: 0
        }
    );
    assert_eq!(protocol, AppProtocol::NONE);
    assert!(services.is_empty());
}

#[test]
fn shared_proxy_refuses_its_own_ports() {
    let mut cfg = Config {
        network: "".to_string(),
        proxy_mode: ProxyMode::Shared,
        illegal_ports: HashSet::from([15001, 15006, 15008]),
    };
    assert!(Inbound::illegal_call(
        &cfg,
        SocketAddr::new(ip(SERVER_POD_IP), 15006)
    ));
    assert!(!Inbound::illegal_call(
        &cfg,
        SocketAddr::new(ip(SERVER_POD_IP), 8080)
    ));
    cfg.proxy_mode = ProxyMode::Dedicated;
    assert!(!Inbound::illegal_call(
        &cfg,
        SocketAddr::new(ip(SERVER_POD_IP), 15006)
    ));
}

#[test]
fn accepted_connection_is_on_our_network_and_canonical() {
    let cfg = Config {
        network: "net1".to_string(),
        proxy_mode: ProxyMode::Shared,
        illegal_ports: HashSet::new(),
    };
    let identity = Identity {
        trust_domain: "td".to_string(),
        namespace: "ns".to_string(),
        service_account: "sa".to_string(),
    };
    let conn = Inbound::accept(
        &cfg,
        Some(identity),
        SocketAddr::V6 {
            ip6: 0xffff_0a00_0001,
            port: 1234,
            flowinfo: 1,
            scope_id: 2,
        },
        SocketAddr::new(ip(SERVER_POD_IP), 15008),
    );
    assert_eq!(conn.src, SocketAddr::new(ip("10.0.0.1"), 1234));
    assert_eq!(conn.dst, SocketAddr::new(ip(SERVER_POD_IP), 15008));
    assert_eq!(conn.dst_network, "net1");
    assert_eq!(conn.src_identity.unwrap().service_account, "sa");
}

#[test]
fn canonical_addresses() {
    let mapped = SocketAddr::new(IpAddr::V6(0xffff_0102_0304), 80);
    assert_eq!(to_canonical(mapped), SocketAddr::new(ip("1.2.3.4"), 80));
    let native = SocketAddr::new(IpAddr::V6(1), 80);
    assert_eq!(to_canonical(native), native);
    let almost = SocketAddr::new(IpAddr::V6(0x1_ffff_0102_0304), 80);
    assert_eq!(to_canonical(almost), almost);
    assert_eq!(to_canonical(to_canonical(mapped)), to_canonical(mapped));
}

#[test]
fn inserted_workload_replaces_its_predecessor() {
    let mut state = ProxyState::new();
    state
        .workloads
        .insert(Arc::new(workload("a", "10.0.0.1", None, None)));
    state
        .workloads
        .insert(Arc::new(workload("b", "10.0.0.2", None, None)));
    state
        .workloads
        .insert(Arc::new(workload("a", "10.0.0.3", None, None)));
    assert!(state.workloads.find_address(&network_addr("10.0.0.1")).is_none());
    assert_eq!(
        state
            .workloads
            .find_address(&network_addr("10.0.0.2"))
            .unwrap()
            .name,
        "workload-b"
    );
    assert_eq!(
        state
            .workloads
            .find_address(&network_addr("10.0.0.3"))
            .unwrap()
            .name,
        "workload-a"
    );
    // an address belongs to the workload that was given it last
    state
        .workloads
        .insert(Arc::new(workload("c", "10.0.0.2", None, None)));
    assert_eq!(
        state
            .workloads
            .find_address(&network_addr("10.0.0.2"))
            .unwrap()
            .name,
        "workload-c"
    );
    // another network has other addresses
    assert!(state
        .workloads
        .find_address(&NetworkAddress {
            network: "other".to_string(),
            address: ip("10.0.0.2")
        })
        .is_none());
}

#[test]
fn inserted_service_replaces_its_predecessor() {
    let mut state = ProxyState::new();
    state
        .services
        .insert(Arc::new(service("a", "10.10.0.1", None)));
    state
        .services
        .insert(Arc::new(service("a", "10.10.0.2", None)));
    assert!(state.find_address(&network_addr("10.10.0.1")).is_none());
    assert!(matches!(
        state.find_address(&network_addr("10.10.0.2")),
        Some(Address::Service(s)) if s.name == "a"
    ));
    let name = NamespacedHostname {
        namespace: "default".to_string(),
        hostname: "a.default.svc.cluster.local".to_string(),
    };
    assert!(matches!(state.find_hostname(&name), Some(Address::Service(_))));
    let mut named = workload("w", "10.10.0.2", None, None);
    named.hostname = "w.example".to_string();
    state.workloads.insert(Arc::new(named));
    // a workload's address goes before a service's
    assert!(matches!(
        state.find_address(&network_addr("10.10.0.2")),
        Some(Address::Workload(_))
    ));
    assert!(matches!(
        state.find_hostname(&NamespacedHostname {
            namespace: "any".to_string(),
            hostname: "w.example".to_string()
        }),
        Some(Address::Workload(_))
    ));
    assert!(state
        .find_hostname(&NamespacedHostname {
            namespace: "any".to_string(),
            hostname: "".to_string()
        })
        .is_none());
}
