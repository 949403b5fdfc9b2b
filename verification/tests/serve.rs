use std::collections::HashSet;
use std::sync::Arc;

use http::{HeaderMap, HeaderValue, Method, Uri};
use inbound::addr::{IpAddr, SocketAddr};
use inbound::inbound::{Config, Connection, Error, Identity, Inbound, ProxyMode};
use inbound::message::H2Request;
use inbound::response::StatusCode;
use inbound::serve::{
    Action, Baggage, Event, Reporter, ResponseFlags, SecurityPolicy, ServeConnect,
    ServiceDescription,
};
use inbound::state::{
    AppProtocol, ApplicationTunnel, DemandProxyState, Destination, Endpoint, GatewayAddress,
    ProxyState, Service, Workload,
};

type Failure = &'static str;

const CLIENT: IpAddr = IpAddr::V4(0x0a00_0001);
const SERVER: IpAddr = IpAddr::V4(0x0a00_0002);
const ELSEWHERE: IpAddr = IpAddr::V4(0x0a00_0063);

fn target(ip: IpAddr, port: u16) -> SocketAddr {
    SocketAddr::new(ip, port)
}

fn config(mode: ProxyMode) -> Config {
    Config {
        network: "net".to_string(),
        proxy_mode: mode,
        illegal_ports: HashSet::from([15006, 15008]),
    }
}

fn connection() -> Connection {
    Connection {
        src_identity: Some(Identity {
            trust_domain: "td".to_string(),
            namespace: "ns".to_string(),
            service_account: "sa".to_string(),
        }),
        src: target(CLIENT, 1234),
        dst_network: "net".to_string(),
        dst: target(SERVER, 15008),
    }
}

fn workload(tunnel: Option<ApplicationTunnel>) -> Arc<Workload> {
    Arc::new(Workload {
        uid: "uid-server".to_string(),
        name: "server".to_string(),
        namespace: "default".to_string(),
        service_account: "default".to_string(),
        network: "net".to_string(),
        hostname: "".to_string(),
        workload_ips: vec![SERVER],
        waypoint: None,
        application_tunnel: tunnel,
    })
}

fn state(on_demand: bool) -> DemandProxyState {
    let mut state = ProxyState::new();
    state.services.insert(Arc::new(Service {
        name: "server".to_string(),
        namespace: "default".to_string(),
        hostname: "server.default".to_string(),
        vips: vec![],
        endpoints: vec![Endpoint {
            workload_uid: "uid-server".to_string(),
        }],
        waypoint: None,
    }));
    DemandProxyState { state, on_demand }
}

fn request(method: &str, headers: Vec<(&'static str, &'static str)>) -> H2Request {
    let mut map = HeaderMap::new();
    for (name, value) in headers {
        map.append(name, HeaderValue::from_static(value));
    }
    H2Request {
        method: Method::from_bytes(method.as_bytes()).unwrap(),
        uri: "10.0.0.2:8080".parse::<Uri>().unwrap(),
        headers: map,
    }
}

struct Run {
    cfg: Config,
    state: DemandProxyState,
    req: H2Request,
    at: Option<ServeConnect>,
}

impl Run {
    fn begin(
        cfg: Config,
        state: DemandProxyState,
        req: H2Request,
        enable_original_source: bool,
    ) -> (Run, Action<Failure>) {
        let (at, action) = Inbound::serve_connect(connection(), enable_original_source, &req);
        (
            Run {
                cfg,
                state,
                req,
                at: Some(at),
            },
            action,
        )
    }

    fn go(&mut self, event: Event<Failure>) -> Action<Failure> {
        let at = self.at.take().unwrap();
        assert!(at.is_awaiting(&event));
        let (at, action) = at.step(&self.cfg, &self.state, &self.req, event);
        self.at = Some(at);
        action
    }
}

fn ordinary(headers: Vec<(&'static str, &'static str)>, enable_original_source: bool) -> Run {
    let (run, action) = Run::begin(
        config(ProxyMode::Shared),
        state(false),
        request("CONNECT", headers),
        enable_original_source,
    );
    assert!(matches!(action, Action::ParseAddress(uri) if uri == "10.0.0.2:8080"));
    run
}

#[test]
fn request_that_asks_for_no_tunnel_is_not_found() {
    let (run, action) = Run::begin(
        config(ProxyMode::Shared),
        state(false),
        request("GET", vec![]),
        false,
    );
    match action {
        Action::Refuse { deny, status } => {
            assert_eq!(status, StatusCode::NotFound);
            assert_eq!(deny.src, target(CLIENT, 1234));
            assert_eq!(deny.dst, target(SERVER, 15008));
            assert_eq!(deny.reporter, Reporter::Destination);
            assert!(matches!(deny.error, Error::NonConnectMethod(m) if m == "GET"));
        }
        _ => panic!("the request is refused"),
    }
    assert!(!run
        .at
        .unwrap()
        .is_awaiting(&Event::<Failure>::AddressParsed(None)));
}

#[test]
fn target_that_is_no_address_is_a_bad_request() {
    let mut run = ordinary(vec![], false);
    match run.go(Event::AddressParsed(None)) {
        Action::Refuse { deny, status } => {
            assert_eq!(status, StatusCode::BadRequest);
            assert!(matches!(deny.error, Error::ConnectAddress(u) if u == "10.0.0.2:8080"));
        }
        _ => panic!("the request is refused"),
    }
}

#[test]
fn missing_workload_ends_the_request_without_an_answer() {
    let mut run = ordinary(vec![], false);
    assert!(matches!(
        run.go(Event::AddressParsed(Some(target(SERVER, 8080)))),
        Action::LoadWorkload
    ));
    assert!(matches!(
        run.go(Event::WorkloadLoaded(Err("gone"))),
        Action::Fail("gone")
    ));
}

#[test]
fn mismatched_target_is_a_bad_request() {
    let mut run = ordinary(vec![], false);
    run.go(Event::AddressParsed(Some(target(ELSEWHERE, 8080))));
    match run.go(Event::WorkloadLoaded(Ok(workload(None)))) {
        Action::Refuse { deny, status } => {
            assert_eq!(status, StatusCode::BadRequest);
            assert_eq!(deny.dst, target(SERVER, 15008));
            assert!(matches!(
                deny.error,
                Error::IPMismatch(a, b) if a == SERVER && b == ELSEWHERE
            ));
        }
        _ => panic!("the request is refused"),
    }
}

#[test]
fn target_is_fetched_once() {
    let (mut run, _) = Run::begin(
        config(ProxyMode::Shared),
        state(true),
        request("CONNECT", vec![]),
        false,
    );
    run.go(Event::AddressParsed(Some(target(ELSEWHERE, 8080))));
    assert!(matches!(
        run.go(Event::WorkloadLoaded(Ok(workload(None)))),
        Action::FetchTarget(addr) if addr.network == "net" && addr.address == ELSEWHERE
    ));
    assert!(matches!(
        run.go(Event::TargetFetched),
        Action::Refuse {
            status: StatusCode::BadRequest,
            ..
        }
    ));
}

#[test]
fn fetched_target_behind_this_waypoint_is_routed() {
    let (mut run, _) = Run::begin(
        config(ProxyMode::Shared),
        state(true),
        request("CONNECT", vec![]),
        false,
    );
    run.go(Event::AddressParsed(Some(target(ELSEWHERE, 8080))));
    run.go(Event::WorkloadLoaded(Ok(workload(None))));
    let server = inbound::addr::NetworkAddress {
        network: "net".to_string(),
        address: SERVER,
    };
    run.state.state.workloads.insert(workload(None));
    run.state.state.workloads.insert(Arc::new(Workload {
        uid: "uid-elsewhere".to_string(),
        name: "elsewhere".to_string(),
        namespace: "default".to_string(),
        service_account: "default".to_string(),
        network: "net".to_string(),
        hostname: "".to_string(),
        workload_ips: vec![ELSEWHERE],
        waypoint: Some(GatewayAddress {
            destination: Destination::Address(server),
            hbone_mtls_port: 15008,
        }),
        application_tunnel: None,
    }));
    assert!(matches!(
        run.go(Event::TargetFetched),
        Action::CheckGateway { .. }
    ));
}

#[test]
fn shared_proxy_does_not_call_itself() {
    let mut run = ordinary(vec![], false);
    run.go(Event::AddressParsed(Some(target(SERVER, 15006))));
    match run.go(Event::WorkloadLoaded(Ok(workload(Some(
        ApplicationTunnel {
            port: Some(15088),
            protocol: AppProtocol::PROXY,
        },
    ))))) {
        Action::Refuse { deny, status } => {
            assert_eq!(status, StatusCode::BadRequest);
            assert_eq!(deny.dst, target(SERVER, 15088));
            assert!(matches!(deny.error, Error::SelfCall));
        }
        _ => panic!("the request is refused"),
    }
    // a tunnel may lead to one of the proxy's ports, and a dedicated proxy has none
    let mut run = ordinary(vec![], false);
    run.go(Event::AddressParsed(Some(target(SERVER, 8080))));
    assert!(matches!(
        run.go(Event::WorkloadLoaded(Ok(workload(Some(
            ApplicationTunnel {
                port: Some(15008),
                protocol: AppProtocol::NONE,
            }
        ))))),
        Action::CheckGateway { .. }
    ));
    let (mut run, _) = Run::begin(
        config(ProxyMode::Dedicated),
        state(false),
        request("CONNECT", vec![]),
        false,
    );
    run.go(Event::AddressParsed(Some(target(SERVER, 15006))));
    assert!(matches!(
        run.go(Event::WorkloadLoaded(Ok(workload(None)))),
        Action::CheckGateway { .. }
    ));
}

fn routed(
    headers: Vec<(&'static str, &'static str)>,
    enable_original_source: bool,
    tunnel: Option<ApplicationTunnel>,
) -> Run {
    let mut run = ordinary(headers, enable_original_source);
    run.go(Event::AddressParsed(Some(target(SERVER, 8080))));
    match run.go(Event::WorkloadLoaded(Ok(workload(tunnel)))) {
        Action::CheckGateway {
            workload,
            src_identity,
        } => {
            assert_eq!(workload.name, "server");
            assert_eq!(src_identity.unwrap().service_account, "sa");
        }
        _ => panic!("the request is routed"),
    }
    run
}

#[test]
fn tunnel_from_arrival_to_end() {
    let mut run = routed(
        vec![
            ("forwarded", "for=a;host=svc.example"),
            ("baggage", "k8s.cluster.name=c1"),
            ("baggage", "service.version=v1"),
        ],
        true,
        Some(ApplicationTunnel {
            port: Some(15088),
            protocol: AppProtocol::PROXY,
        }),
    );
    assert!(matches!(
        run.go(Event::GatewayChecked(false)),
        Action::FetchSource(addr) if addr.network == "net" && addr.address == CLIENT
    ));
    let source = workload(None);
    match run.go(Event::SourceFetched(Some(source))) {
        Action::Describe {
            conn,
            for_host,
            services,
            workload,
            baggage,
        } => {
            assert_eq!(conn.dst, target(SERVER, 15088));
            assert_eq!(for_host, Some("svc.example".to_string()));
            assert_eq!(services.len(), 1);
            assert_eq!(services[0].hostname, "server.default");
            assert_eq!(workload.name, "server");
            assert_eq!(
                baggage,
                vec![b"k8s.cluster.name=c1".to_vec(), b"service.version=v1".to_vec()]
            );
        }
        _ => panic!("the request is described"),
    }
    match run.go(Event::Described {
        baggage: Some(Baggage {
            cluster_id: Some("c1".to_string()),
            namespace: None,
            workload_name: Some("w".to_string()),
            revision: Some("v1".to_string()),
        }),
        service: Some(ServiceDescription {
            hostname: "server.default".to_string(),
            name: "server".to_string(),
            namespace: "default".to_string(),
        }),
    }) {
        Action::Authorize {
            report,
            rbac_ctx,
            for_host,
        } => {
            assert_eq!(report.src, target(CLIENT, 1234));
            assert_eq!(report.dst, target(SERVER, 15008));
            assert_eq!(report.hbone_addr, Some(target(SERVER, 8080)));
            assert_eq!(report.open.reporter, Reporter::Destination);
            assert_eq!(
                report.open.connection_security_policy,
                SecurityPolicy::MutualTls
            );
            assert!(report.open.source.is_some());
            assert_eq!(report.open.destination.unwrap().name, "server");
            let derived = report.open.derived_source.unwrap();
            assert_eq!(derived.identity.unwrap().namespace, "ns");
            assert_eq!(derived.cluster_id, Some("c1".to_string()));
            assert_eq!(derived.namespace, None);
            assert_eq!(derived.workload_name, Some("w".to_string()));
            assert_eq!(derived.revision, Some("v1".to_string()));
            assert_eq!(report.open.destination_service.unwrap().name, "server");
            assert_eq!(rbac_ctx.conn.dst, target(SERVER, 15088));
            assert_eq!(rbac_ctx.conn.src, target(CLIENT, 1234));
            assert_eq!(rbac_ctx.conn.dst_network, "net");
            assert_eq!(rbac_ctx.dest_workload.name, "server");
            assert_eq!(for_host, Some("svc.example".to_string()));
        }
        _ => panic!("authorization is asked for"),
    }
    match run.go(Event::Authorized(Ok(()))) {
        Action::Connect { orig_src, upstream } => {
            assert_eq!(orig_src, Some(CLIENT));
            assert_eq!(upstream, target(SERVER, 15088));
        }
        _ => panic!("the workload is connected to"),
    }
    assert!(matches!(
        run.go(Event::Connected(Ok(()))),
        Action::Respond(StatusCode::OK)
    ));
    match run.go(Event::Responded(Ok(()))) {
        Action::Forward(Some(header)) => {
            assert_eq!(header.src, target(CLIENT, 1234));
            assert_eq!(header.dst, target(SERVER, 8080));
            assert_eq!(header.src_identity.unwrap().trust_domain, "td");
        }
        _ => panic!("bytes are forwarded behind a header"),
    }
    assert!(matches!(
        run.go(Event::Forwarded(Err("reset"))),
        Action::Finish(Err("reset"))
    ));
}

#[test]
fn source_behind_a_gateway_is_not_looked_up() {
    let mut run = routed(vec![], false, None);
    match run.go(Event::GatewayChecked(true)) {
        Action::Describe {
            for_host, baggage, ..
        } => {
            assert_eq!(for_host, None);
            assert!(baggage.is_empty());
        }
        _ => panic!("the request is described"),
    }
    match run.go(Event::Described {
        baggage: None,
        service: None,
    }) {
        Action::Authorize { report, .. } => {
            assert!(report.open.source.is_none());
            let derived = report.open.derived_source.unwrap();
            assert_eq!(derived.cluster_id, None);
            assert_eq!(derived.workload_name, None);
            assert!(derived.identity.is_some());
            assert!(report.open.destination_service.is_none());
        }
        _ => panic!("authorization is asked for"),
    }
    match run.go(Event::Authorized(Ok(()))) {
        Action::Connect { orig_src, upstream } => {
            assert_eq!(orig_src, None);
            assert_eq!(upstream, target(SERVER, 8080));
        }
        _ => panic!("the workload is connected to"),
    }
    run.go(Event::Connected(Ok(())));
    assert!(matches!(
        run.go(Event::Responded(Ok(()))),
        Action::Forward(None)
    ));
    assert!(matches!(
        run.go(Event::Forwarded(Ok(()))),
        Action::Finish(Ok(()))
    ));
}

#[test]
fn unauthorized_connection_is_refused_and_flagged() {
    let mut run = routed(vec![], false, None);
    run.go(Event::GatewayChecked(true));
    run.go(Event::Described {
        baggage: None,
        service: None,
    });
    assert!(matches!(
        run.go(Event::Authorized(Err("policy"))),
        Action::RefuseReported {
            error: "policy",
            flag: Some(ResponseFlags::AuthorizationPolicyDenied),
            status: StatusCode::Unauthorized,
        }
    ));
}

#[test]
fn unreachable_workload_makes_the_service_unavailable() {
    let mut run = routed(vec![], false, None);
    run.go(Event::GatewayChecked(true));
    run.go(Event::Described {
        baggage: None,
        service: None,
    });
    run.go(Event::Authorized(Ok(())));
    assert!(matches!(
        run.go(Event::Connected(Err("refused"))),
        Action::RefuseReported {
            error: "refused",
            flag: None,
            status: StatusCode::ServiceUnavailable,
        }
    ));
}

#[test]
fn answer_that_does_not_go_out_ends_the_request() {
    let mut run = routed(vec![], false, None);
    run.go(Event::GatewayChecked(true));
    run.go(Event::Described {
        baggage: None,
        service: None,
    });
    run.go(Event::Authorized(Ok(())));
    run.go(Event::Connected(Ok(())));
    assert!(matches!(
        run.go(Event::Responded(Err("closed"))),
        Action::Fail("closed")
    ));
    assert!(!run
        .at
        .unwrap()
        .is_awaiting(&Event::<Failure>::Forwarded(Ok(()))));
}

#[test]
fn request_whose_forwarded_list_breaks_off_is_given_up() {
    let mut run = routed(vec![("forwarded", "for=a, f")], false, None);
    assert!(matches!(
        run.go(Event::GatewayChecked(false)),
        Action::Abandon
    ));
}
