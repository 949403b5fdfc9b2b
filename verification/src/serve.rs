//! The course of a request, from its arrival to the end of its tunnel.
//!
//! A request alternates between decisions and work that only the surrounding program can do:
//! looking up workloads, asking for authorization, connecting, copying bytes. `ServeConnect`
//! holds where a request stands. Each step takes what came of the last piece of work and gives
//! the next one.

use std::sync::Arc;

use vstd::pervasive::unreached;
use vstd::prelude::*;

use crate::addr::{IpAddr, NetworkAddress, SocketAddr};
use crate::forwarded::{
    checked_forwarded_host, forwarded_host, forwarded_overruns, text_view, ForwardedHost,
};
use crate::inbound::{
    clone_identity, destination_check, fetched_destination_check, is_illegal_call, protocol_of,
    upstream_of, Config, Connection, DestinationCheck, Error, Identity, Inbound,
};
use crate::message::{header_values, method_text, uri_text, H2Request, BAGGAGE_HEADER};
use crate::response::StatusCode;
use crate::state::{share, AppProtocol, DemandProxyState, Service, Workload};

verus! {

/// What a client says of its own workload in the `baggage` header.
#[derive(Debug)]
pub struct Baggage {
    pub cluster_id: Option<String>,
    pub namespace: Option<String>,
    pub workload_name: Option<String>,
    pub revision: Option<String>,
}

/// What a request says of the workload that it comes from.
#[derive(Debug)]
pub struct DerivedWorkload {
    pub identity: Option<Identity>,
    pub cluster_id: Option<String>,
    pub namespace: Option<String>,
    pub workload_name: Option<String>,
    pub revision: Option<String>,
}

/// How a service is named in a report.
#[derive(Debug)]
pub struct ServiceDescription {
    pub hostname: String,
    pub name: String,
    pub namespace: String,
}

/// The side of a connection that reports it.
#[derive(Clone, Copy, Debug, PartialEq, Eq, Structural)]
pub enum Reporter {
    Source,
    Destination,
}

/// How a connection is secured.
#[derive(Clone, Copy, Debug, PartialEq, Eq, Structural)]
pub enum SecurityPolicy {
    Unknown,
    MutualTls,
}

/// What a report says of a refusal beside its error.
#[derive(Clone, Copy, Debug, PartialEq, Eq, Structural)]
pub enum ResponseFlags {
    AuthorizationPolicyDenied,
}

/// What is reported of a connection when it opens.
#[derive(Debug)]
pub struct ConnectionOpen {
    pub reporter: Reporter,
    pub source: Option<Arc<Workload>>,
    pub derived_source: Option<DerivedWorkload>,
    pub destination: Option<Arc<Workload>>,
    pub connection_security_policy: SecurityPolicy,
    pub destination_service: Option<ServiceDescription>,
}

/// The report of a connection. Its destination is the address that the connection was made to,
/// with the proxy's port, and the address that the request asks for stands beside it.
#[derive(Debug)]
pub struct ConnectionReport {
    pub src: SocketAddr,
    pub dst: SocketAddr,
    pub hbone_addr: Option<SocketAddr>,
    pub open: ConnectionOpen,
}

/// The report of a request that is refused before a connection opens.
#[derive(Debug)]
pub struct EarlyDeny {
    pub src: SocketAddr,
    pub dst: SocketAddr,
    pub reporter: Reporter,
    pub error: Error,
}

/// What authorization is asked for.
#[derive(Debug)]
pub struct RbacContext {
    pub conn: Connection,
    pub dest_workload: Arc<Workload>,
}

/// What stands in front of the forwarded bytes of a tunnel that wants it.
#[derive(Debug)]
pub struct ProxyHeader {
    pub src: SocketAddr,
    pub dst: SocketAddr,
    pub src_identity: Option<Identity>,
}

/// Where an admitted request goes.
#[derive(Debug)]
pub struct Route {
    pub hbone_addr: SocketAddr,
    pub original_dst: SocketAddr,
    pub workload: Arc<Workload>,
    pub protocol: AppProtocol,
}

/// Where a request stands: the work whose outcome it waits for.
#[derive(Debug)]
pub enum Phase {
    ParsingAddress,
    LoadingWorkload { hbone_addr: SocketAddr },
    FetchingTarget { hbone_addr: SocketAddr, workload: Arc<Workload> },
    CheckingGateway { route: Route, services: Vec<Arc<Service>> },
    FetchingSource { route: Route, services: Vec<Arc<Service>>, for_host: Option<String> },
    Describing { route: Route, source: Option<Arc<Workload>>, for_host: Option<String> },
    Authorizing { route: Route },
    Connecting { route: Route },
    Responding { route: Route },
    Forwarding,
    Done,
}

/// A request in its course.
#[derive(Debug)]
pub struct ServeConnect {
    pub conn: Connection,
    pub enable_original_source: bool,
    pub phase: Phase,
}

/// What came of a piece of work. `E` is how that work fails.
pub enum Event<E> {
    /// The socket address that the request's target spells, where it spells one.
    AddressParsed(Option<SocketAddr>),
    /// The workload that the connection was made to.
    WorkloadLoaded(Result<Arc<Workload>, E>),
    /// What can be known of the target was fetched.
    TargetFetched,
    /// Whether the request comes through a gateway of another network.
    GatewayChecked(bool),
    /// The workload that the request comes from, where it is known.
    SourceFetched(Option<Arc<Workload>>),
    /// What the `baggage` header says, where it can be read, and the service that the request
    /// is taken to be for.
    Described { baggage: Option<Baggage>, service: Option<ServiceDescription> },
    /// Whether the connection is authorized.
    Authorized(Result<(), E>),
    /// Whether the workload could be reached.
    Connected(Result<(), E>),
    /// Whether the response went out.
    Responded(Result<(), E>),
    /// How the tunnel ended.
    Forwarded(Result<(), E>),
}

/// What is to be done next.
pub enum Action<E> {
    /// Read a socket address.
    ParseAddress(String),
    /// Find the workload that the connection was made to.
    LoadWorkload,
    /// Fetch what can be known of an address.
    FetchTarget(NetworkAddress),
    /// Find out whether a peer is a gateway of another network.
    CheckGateway { workload: Arc<Workload>, src_identity: Option<Identity> },
    /// Find the workload that has an address.
    FetchSource(NetworkAddress),
    /// Read the `baggage` header, and guess the service that the request is for.
    Describe {
        conn: Connection,
        for_host: Option<String>,
        services: Vec<Arc<Service>>,
        workload: Arc<Workload>,
        baggage: Vec<Vec<u8>>,
    },
    /// Open the report, and ask for authorization.
    Authorize { report: ConnectionReport, rbac_ctx: RbacContext, for_host: Option<String> },
    /// Connect to the workload, from the given address where there is one.
    Connect { orig_src: Option<IpAddr>, upstream: SocketAddr },
    /// Answer, and keep the stream open.
    Respond(StatusCode),
    /// Send the given header where there is one, and then copy bytes both ways.
    Forward(Option<ProxyHeader>),
    /// Report the refusal, answer, and end with what comes of answering.
    Refuse { deny: EarlyDeny, status: StatusCode },
    /// Close the report with the error, answer, and end with what comes of answering.
    RefuseReported { error: E, flag: Option<ResponseFlags>, status: StatusCode },
    /// Close the report with how the tunnel ended, and end well.
    Finish(Result<(), E>),
    /// End with an error, and without an answer.
    Fail(E),
    /// Give the request up: its `Forwarded` header cannot be read to its end.
    Abandon,
}

impl ServeConnect {
    /// The same request in another phase.
    pub open spec fn at(self, phase: Phase) -> ServeConnect {
        ServeConnect { phase, ..self }
    }

    /// Whether the request waits for an event of this kind.
    pub open spec fn awaits<E>(self, event: Event<E>) -> bool {
        match self.phase {
            Phase::ParsingAddress => event is AddressParsed,
            Phase::LoadingWorkload { .. } => event is WorkloadLoaded,
            Phase::FetchingTarget { .. } => event is TargetFetched,
            Phase::CheckingGateway { .. } => event is GatewayChecked,
            Phase::FetchingSource { .. } => event is SourceFetched,
            Phase::Describing { .. } => event is Described,
            Phase::Authorizing { .. } => event is Authorized,
            Phase::Connecting { .. } => event is Connected,
            Phase::Responding { .. } => event is Responded,
            Phase::Forwarding => event is Forwarded,
            Phase::Done => false,
        }
    }
}

/// Whether an action refuses a request early with this address, status and error.
pub open spec fn refuses<E>(
    action: Action<E>,
    src: SocketAddr,
    dst: SocketAddr,
    error: Error,
    status: StatusCode,
) -> bool {
    action == Action::<E>::Refuse {
        deny: EarlyDeny { src, dst, reporter: Reporter::Destination, error },
        status,
    }
}

/// The header that a tunnel wants to see in front of the bytes of a request.
pub open spec fn proxy_header(conn: Connection, route: Route) -> Option<ProxyHeader> {
    if route.protocol == AppProtocol::PROXY {
        Some(
            ProxyHeader {
                src: conn.src,
                dst: route.hbone_addr,
                src_identity: conn.src_identity,
            },
        )
    } else {
        None
    }
}

/// What a request says of the workload that it comes from: the identity that the peer proved,
/// and what the `baggage` header says, which is nothing where that header cannot be read.
pub open spec fn derived_source(conn: Connection, baggage: Option<Baggage>) -> DerivedWorkload {
    match baggage {
        Some(b) => DerivedWorkload {
            identity: conn.src_identity,
            cluster_id: b.cluster_id,
            namespace: b.namespace,
            workload_name: b.workload_name,
            revision: b.revision,
        },
        None => DerivedWorkload {
            identity: conn.src_identity,
            cluster_id: None,
            namespace: None,
            workload_name: None,
            revision: None,
        },
    }
}

/// The report of the connection of a routed request.
pub open spec fn report_of(
    conn: Connection,
    route: Route,
    source: Option<Arc<Workload>>,
    baggage: Option<Baggage>,
    service: Option<ServiceDescription>,
) -> ConnectionReport {
    ConnectionReport {
        src: conn.src,
        dst: route.original_dst,
        hbone_addr: Some(route.hbone_addr),
        open: ConnectionOpen {
            reporter: Reporter::Destination,
            source,
            derived_source: Some(derived_source(conn, baggage)),
            destination: Some(route.workload),
            connection_security_policy: SecurityPolicy::MutualTls,
            destination_service: service,
        },
    }
}

/// The values of a request's `baggage` header.
pub open spec fn baggage_of(req: H2Request) -> Seq<Seq<u8>> {
    if header_values(req.headers).contains_key(BAGGAGE_HEADER@) {
        header_values(req.headers)[BAGGAGE_HEADER@]
    } else {
        Seq::empty()
    }
}

/// How a request begins: a request for a tunnel has its target read, and any other is refused.
pub open spec fn begins<E>(
    conn: Connection,
    enable_original_source: bool,
    req: H2Request,
    next: ServeConnect,
    action: Action<E>,
) -> bool {
    &&& next.conn == conn
    &&& next.enable_original_source == enable_original_source
    &&& if method_text(req.method) == "CONNECT"@ {
        &&& next.phase == Phase::ParsingAddress
        &&& action matches Action::ParseAddress(uri) && uri@ == uri_text(req.uri)
    } else {
        &&& next.phase == Phase::Done
        &&& exists|method: String|
            method@ == method_text(req.method) && #[trigger] refuses(
                action,
                conn.src,
                conn.dst,
                Error::NonConnectMethod(method),
                StatusCode::NotFound,
            )
    }
}

/// What becomes of a request whose target is allowed: it is refused where it asks for a port of
/// the proxy itself, and routed otherwise.
pub open spec fn routes<E>(
    m: ServeConnect,
    cfg: Config,
    state: DemandProxyState,
    workload: Arc<Workload>,
    hbone_addr: SocketAddr,
    next: ServeConnect,
    action: Action<E>,
) -> bool {
    let upstream = upstream_of(m.conn, *workload, hbone_addr);
    if is_illegal_call(cfg, hbone_addr) {
        &&& next == m.at(Phase::Done)
        &&& refuses(action, m.conn.src, upstream, Error::SelfCall, StatusCode::BadRequest)
    } else {
        &&& next.conn == Connection { dst: upstream, ..m.conn }
        &&& next.enable_original_source == m.enable_original_source
        &&& next.phase matches Phase::CheckingGateway { route, services }
        &&& route == Route {
            hbone_addr,
            original_dst: m.conn.dst,
            workload,
            protocol: protocol_of(*workload),
        }
        &&& services@ == state.state.services.of_workload(*workload)
        &&& action == Action::<E>::CheckGateway { workload, src_identity: m.conn.src_identity }
    }
}

/// What becomes of a request whose source is settled: the request is described.
pub open spec fn describes<E>(
    m: ServeConnect,
    req: H2Request,
    route: Route,
    services: Vec<Arc<Service>>,
    source: Option<Arc<Workload>>,
    host: Option<Seq<char>>,
    next: ServeConnect,
    action: Action<E>,
) -> bool {
    &&& next.conn == m.conn
    &&& next.enable_original_source == m.enable_original_source
    &&& next.phase matches Phase::Describing { route: r, source: s, for_host: h }
    &&& r == route
    &&& s == source
    &&& text_view(h) == host
    &&& action matches Action::Describe {
        conn,
        for_host,
        services: listed,
        workload,
        baggage,
    }
    &&& conn == m.conn
    &&& text_view(for_host) == host
    &&& listed == services
    &&& workload == route.workload
    &&& baggage@.map_values(|v: Vec<u8>| v@) == baggage_of(req)
}

/// How a request goes on after a piece of work.
pub open spec fn transition<E>(
    m: ServeConnect,
    cfg: Config,
    state: DemandProxyState,
    req: H2Request,
    event: Event<E>,
    next: ServeConnect,
    action: Action<E>,
) -> bool {
    match (m.phase, event) {
        (Phase::ParsingAddress, Event::AddressParsed(Some(hbone_addr))) => {
            &&& next == m.at(Phase::LoadingWorkload { hbone_addr })
            &&& action == Action::<E>::LoadWorkload
        },
        (Phase::ParsingAddress, Event::AddressParsed(None)) => {
            &&& next == m.at(Phase::Done)
            &&& exists|uri: String|
                uri@ == uri_text(req.uri) && #[trigger] refuses(
                    action,
                    m.conn.src,
                    m.conn.dst,
                    Error::ConnectAddress(uri),
                    StatusCode::BadRequest,
                )
        },
        (Phase::LoadingWorkload { .. }, Event::WorkloadLoaded(Err(e))) => {
            &&& next == m.at(Phase::Done)
            &&& action == Action::Fail(e)
        },
        (Phase::LoadingWorkload { hbone_addr }, Event::WorkloadLoaded(Ok(workload))) => {
            match destination_check(state, m.conn, *workload, hbone_addr) {
                DestinationCheck::Allowed => routes(
                    m,
                    cfg,
                    state,
                    workload,
                    hbone_addr,
                    next,
                    action,
                ),
                DestinationCheck::Denied(error) => {
                    &&& next == m.at(Phase::Done)
                    &&& refuses(action, m.conn.src, m.conn.dst, error, StatusCode::BadRequest)
                },
                DestinationCheck::FetchOnDemand(addr) => {
                    &&& next == m.at(Phase::FetchingTarget { hbone_addr, workload })
                    &&& action == Action::<E>::FetchTarget(addr)
                },
            }
        },
        (Phase::FetchingTarget { hbone_addr, workload }, Event::TargetFetched) => {
            match fetched_destination_check(state.state, m.conn, *workload, hbone_addr) {
                Ok(_) => routes(m, cfg, state, workload, hbone_addr, next, action),
                Err(error) => {
                    &&& next == m.at(Phase::Done)
                    &&& refuses(action, m.conn.src, m.conn.dst, error, StatusCode::BadRequest)
                },
            }
        },
        (Phase::CheckingGateway { route, services }, Event::GatewayChecked(from_gateway)) => {
            if forwarded_overruns(req) {
                &&& next == m.at(Phase::Done)
                &&& action == Action::<E>::Abandon
            } else if from_gateway {
                describes(m, req, route, services, None, forwarded_host(req), next, action)
            } else {
                &&& next.conn == m.conn
                &&& next.enable_original_source == m.enable_original_source
                &&& next.phase matches Phase::FetchingSource {
                    route: r,
                    services: s,
                    for_host: h,
                }
                &&& r == route
                &&& s == services
                &&& text_view(h) == forwarded_host(req)
                &&& action == Action::<E>::FetchSource(
                    NetworkAddress { network: m.conn.dst_network, address: m.conn.src.ip() },
                )
            }
        },
        (
            Phase::FetchingSource { route, services, for_host },
            Event::SourceFetched(source),
        ) => describes(m, req, route, services, source, text_view(for_host), next, action),
        (Phase::Describing { route, source, for_host }, Event::Described { baggage, service }) => {
            &&& next == m.at(Phase::Authorizing { route })
            &&& action == Action::<E>::Authorize {
                report: report_of(m.conn, route, source, baggage, service),
                rbac_ctx: RbacContext { conn: m.conn, dest_workload: route.workload },
                for_host,
            }
        },
        (Phase::Authorizing { .. }, Event::Authorized(Err(error))) => {
            &&& next == m.at(Phase::Done)
            &&& action == Action::RefuseReported {
                error,
                flag: Some(ResponseFlags::AuthorizationPolicyDenied),
                status: StatusCode::Unauthorized,
            }
        },
        (Phase::Authorizing { route }, Event::Authorized(Ok(_))) => {
            &&& next == m.at(Phase::Connecting { route })
            &&& action == Action::<E>::Connect {
                orig_src: if m.enable_original_source {
                    Some(m.conn.src.ip())
                } else {
                    None
                },
                upstream: m.conn.dst,
            }
        },
        (Phase::Connecting { .. }, Event::Connected(Err(error))) => {
            &&& next == m.at(Phase::Done)
            &&& action == Action::RefuseReported {
                error,
                flag: None,
                status: StatusCode::ServiceUnavailable,
            }
        },
        (Phase::Connecting { route }, Event::Connected(Ok(_))) => {
            &&& next == m.at(Phase::Responding { route })
            &&& action == Action::<E>::Respond(StatusCode::OK)
        },
        (Phase::Responding { .. }, Event::Responded(Err(error))) => {
            &&& next == m.at(Phase::Done)
            &&& action == Action::Fail(error)
        },
        (Phase::Responding { route }, Event::Responded(Ok(_))) => {
            &&& next == m.at(Phase::Forwarding)
            &&& action == Action::<E>::Forward(proxy_header(m.conn, route))
        },
        (Phase::Forwarding, Event::Forwarded(result)) => {
            &&& next == m.at(Phase::Done)
            &&& action == Action::Finish(result)
        },
        _ => false,
    }
}

/// Copies an optional text.
fn clone_text(text: &Option<String>) -> (copy: Option<String>)
    ensures
        copy == *text,
{
    match text {
        Some(t) => Some(t.clone()),
        None => None,
    }
}

/// Refuses a request early.
fn refuse<E>(src: SocketAddr, dst: SocketAddr, error: Error, status: StatusCode) -> (action: Action<
    E,
>)
    ensures
        refuses(action, src, dst, error, status),
{
    Action::Refuse { deny: EarlyDeny { src, dst, reporter: Reporter::Destination, error }, status }
}

impl Inbound {
    /// Begins to serve a request on a connection.
    pub fn serve_connect<E>(
        conn: Connection,
        enable_original_source: bool,
        req: &H2Request,
    ) -> (begun: (ServeConnect, Action<E>))
        ensures
            begins(conn, enable_original_source, *req, begun.0, begun.1),
    {
        if !req.is_connect() {
            let method = req.method_string();
            let action = refuse(
                conn.src,
                conn.dst,
                Error::NonConnectMethod(method),
                StatusCode::NotFound,
            );
            return (ServeConnect { conn, enable_original_source, phase: Phase::Done }, action);
        }
        (
            ServeConnect { conn, enable_original_source, phase: Phase::ParsingAddress },
            Action::ParseAddress(req.uri_string()),
        )
    }
}

impl ServeConnect {
    /// Whether the request waits for an event of this kind.
    pub fn is_awaiting<E>(&self, event: &Event<E>) -> (awaits: bool)
        ensures
            awaits == self.awaits(*event),
    {
        match (&self.phase, event) {
            (Phase::ParsingAddress, Event::AddressParsed(_)) => true,
            (Phase::LoadingWorkload { .. }, Event::WorkloadLoaded(_)) => true,
            (Phase::FetchingTarget { .. }, Event::TargetFetched) => true,
            (Phase::CheckingGateway { .. }, Event::GatewayChecked(_)) => true,
            (Phase::FetchingSource { .. }, Event::SourceFetched(_)) => true,
            (Phase::Describing { .. }, Event::Described { .. }) => true,
            (Phase::Authorizing { .. }, Event::Authorized(_)) => true,
            (Phase::Connecting { .. }, Event::Connected(_)) => true,
            (Phase::Responding { .. }, Event::Responded(_)) => true,
            (Phase::Forwarding, Event::Forwarded(_)) => true,
            _ => false,
        }
    }

    /// Routes a request whose target is allowed.
    fn route<E>(
        self,
        cfg: &Config,
        state: &DemandProxyState,
        workload: Arc<Workload>,
        hbone_addr: SocketAddr,
    ) -> (next: (ServeConnect, Action<E>))
        ensures
            routes(self, *cfg, *state, workload, hbone_addr, next.0, next.1),
    {
        let (upstream_addr, protocol, services) = Inbound::find_inbound_upstream(
            state,
            &self.conn,
            &workload,
            hbone_addr,
        );
        if Inbound::illegal_call(cfg, hbone_addr) {
            let action = refuse(
                self.conn.src,
                upstream_addr,
                Error::SelfCall,
                StatusCode::BadRequest,
            );
            return (ServeConnect { phase: Phase::Done, ..self }, action);
        }
        let original_dst = self.conn.dst;
        let conn = Connection { dst: upstream_addr, ..self.conn };
        let src_identity = clone_identity(&conn.src_identity);
        let route = Route { hbone_addr, original_dst, workload: share(&workload), protocol };
        (
            ServeConnect {
                conn,
                enable_original_source: self.enable_original_source,
                phase: Phase::CheckingGateway { route, services },
            },
            Action::CheckGateway { workload, src_identity },
        )
    }

    /// Has a request described whose source is settled.
    fn describe<E>(
        self,
        req: &H2Request,
        route: Route,
        services: Vec<Arc<Service>>,
        for_host: Option<String>,
        source: Option<Arc<Workload>>,
    ) -> (next: (ServeConnect, Action<E>))
        ensures
            describes(
                self,
                *req,
                route,
                services,
                source,
                text_view(for_host),
                next.0,
                next.1,
            ),
    {
        let action = Action::Describe {
            conn: self.conn.clone(),
            for_host: clone_text(&for_host),
            services,
            workload: share(&route.workload),
            baggage: req.baggage_values(),
        };
        (
            ServeConnect {
                conn: self.conn,
                enable_original_source: self.enable_original_source,
                phase: Phase::Describing { route, source, for_host },
            },
            action,
        )
    }

    /// Goes on after a piece of work.
    pub fn step<E>(
        self,
        cfg: &Config,
        state: &DemandProxyState,
        req: &H2Request,
        event: Event<E>,
    ) -> (next: (ServeConnect, Action<E>))
        requires
            self.awaits(event),
        ensures
            transition(self, *cfg, *state, *req, event, next.0, next.1),
    {
        let ServeConnect { conn, enable_original_source, phase } = self;
        match (phase, event) {
            (Phase::ParsingAddress, Event::AddressParsed(Some(hbone_addr))) => (
                ServeConnect {
                    conn,
                    enable_original_source,
                    phase: Phase::LoadingWorkload { hbone_addr },
                },
                Action::LoadWorkload,
            ),
            (Phase::ParsingAddress, Event::AddressParsed(None)) => {
                let action = refuse(
                    conn.src,
                    conn.dst,
                    Error::ConnectAddress(req.uri_string()),
                    StatusCode::BadRequest,
                );
                (ServeConnect { conn, enable_original_source, phase: Phase::Done }, action)
            },
            (Phase::LoadingWorkload { .. }, Event::WorkloadLoaded(Err(e))) => (
                ServeConnect { conn, enable_original_source, phase: Phase::Done },
                Action::Fail(e),
            ),
            (Phase::LoadingWorkload { hbone_addr }, Event::WorkloadLoaded(Ok(workload))) => {
                match Inbound::validate_destination(state, &conn, &workload, hbone_addr) {
                    DestinationCheck::Allowed => {
                        let m = ServeConnect {
                            conn,
                            enable_original_source,
                            phase: Phase::LoadingWorkload { hbone_addr },
                        };
                        m.route(cfg, state, workload, hbone_addr)
                    },
                    DestinationCheck::Denied(error) => {
                        let action = refuse(conn.src, conn.dst, error, StatusCode::BadRequest);
                        (ServeConnect { conn, enable_original_source, phase: Phase::Done }, action)
                    },
                    DestinationCheck::FetchOnDemand(addr) => (
                        ServeConnect {
                            conn,
                            enable_original_source,
                            phase: Phase::FetchingTarget { hbone_addr, workload },
                        },
                        Action::FetchTarget(addr),
                    ),
                }
            },
            (Phase::FetchingTarget { hbone_addr, workload }, Event::TargetFetched) => {
                match Inbound::validate_fetched_destination(
                    &state.state,
                    &conn,
                    &workload,
                    hbone_addr,
                ) {
                    Ok(_) => {
                        let m = ServeConnect {
                            conn,
                            enable_original_source,
                            phase: Phase::FetchingTarget { hbone_addr, workload: share(&workload) },
                        };
                        m.route(cfg, state, workload, hbone_addr)
                    },
                    Err(error) => {
                        let action = refuse(conn.src, conn.dst, error, StatusCode::BadRequest);
                        (ServeConnect { conn, enable_original_source, phase: Phase::Done }, action)
                    },
                }
            },
            (Phase::CheckingGateway { route, services }, Event::GatewayChecked(from_gateway)) => {
                let for_host = match checked_forwarded_host(req) {
                    ForwardedHost::Parsed(host) => host,
                    ForwardedHost::Overrun => {
                        return (
                            ServeConnect { conn, enable_original_source, phase: Phase::Done },
                            Action::Abandon,
                        );
                    },
                };
                if from_gateway {
                    let m = ServeConnect { conn, enable_original_source, phase: Phase::Done };
                    return m.describe(req, route, services, for_host, None);
                }
                let addr = NetworkAddress {
                    network: conn.dst_network.clone(),
                    address: conn.src.ip(),
                };
                (
                    ServeConnect {
                        conn,
                        enable_original_source,
                        phase: Phase::FetchingSource { route, services, for_host },
                    },
                    Action::FetchSource(addr),
                )
            },
            (
                Phase::FetchingSource { route, services, for_host },
                Event::SourceFetched(source),
            ) => {
                let m = ServeConnect { conn, enable_original_source, phase: Phase::Done };
                m.describe(req, route, services, for_host, source)
            },
            (
                Phase::Describing { route, source, for_host },
                Event::Described { baggage, service },
            ) => {
                let baggage = baggage.unwrap_or(
                    Baggage {
                        cluster_id: None,
                        namespace: None,
                        workload_name: None,
                        revision: None,
                    },
                );
                let derived_source = DerivedWorkload {
                    identity: clone_identity(&conn.src_identity),
                    cluster_id: baggage.cluster_id,
                    namespace: baggage.namespace,
                    workload_name: baggage.workload_name,
                    revision: baggage.revision,
                };
                let report = ConnectionReport {
                    src: conn.src,
                    dst: route.original_dst,
                    hbone_addr: Some(route.hbone_addr),
                    open: ConnectionOpen {
                        reporter: Reporter::Destination,
                        source,
                        derived_source: Some(derived_source),
                        destination: Some(share(&route.workload)),
                        connection_security_policy: SecurityPolicy::MutualTls,
                        destination_service: service,
                    },
                };
                let rbac_ctx = RbacContext {
                    conn: conn.clone(),
                    dest_workload: share(&route.workload),
                };
                (
                    ServeConnect {
                        conn,
                        enable_original_source,
                        phase: Phase::Authorizing { route },
                    },
                    Action::Authorize { report, rbac_ctx, for_host },
                )
            },
            (Phase::Authorizing { .. }, Event::Authorized(Err(error))) => (
                ServeConnect { conn, enable_original_source, phase: Phase::Done },
                Action::RefuseReported {
                    error,
                    flag: Some(ResponseFlags::AuthorizationPolicyDenied),
                    status: StatusCode::Unauthorized,
                },
            ),
            (Phase::Authorizing { route }, Event::Authorized(Ok(_))) => {
                let orig_src = if enable_original_source {
                    Some(conn.src.ip())
                } else {
                    None
                };
                let upstream = conn.dst;
                (
                    ServeConnect {
                        conn,
                        enable_original_source,
                        phase: Phase::Connecting { route },
                    },
                    Action::Connect { orig_src, upstream },
                )
            },
            (Phase::Connecting { .. }, Event::Connected(Err(error))) => (
                ServeConnect { conn, enable_original_source, phase: Phase::Done },
                Action::RefuseReported {
                    error,
                    flag: None,
                    status: StatusCode::ServiceUnavailable,
                },
            ),
            (Phase::Connecting { route }, Event::Connected(Ok(_))) => (
                ServeConnect { conn, enable_original_source, phase: Phase::Responding { route } },
                Action::Respond(StatusCode::OK),
            ),
            (Phase::Responding { .. }, Event::Responded(Err(error))) => (
                ServeConnect { conn, enable_original_source, phase: Phase::Done },
                Action::Fail(error),
            ),
            (Phase::Responding { route }, Event::Responded(Ok(_))) => {
                let header = match route.protocol {
                    AppProtocol::PROXY => Some(
                        ProxyHeader {
                            src: conn.src,
                            dst: route.hbone_addr,
                            src_identity: clone_identity(&conn.src_identity),
                        },
                    ),
                    AppProtocol::NONE => None,
                };
                (
                    ServeConnect { conn, enable_original_source, phase: Phase::Forwarding },
                    Action::Forward(header),
                )
            },
            (Phase::Forwarding, Event::Forwarded(result)) => (
                ServeConnect { conn, enable_original_source, phase: Phase::Done },
                Action::Finish(result),
            ),
            _ => unreached(),
        }
    }
}

} // verus!
