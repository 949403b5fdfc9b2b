//! What follows on each event of a request, and what each action carries, field by field.

use std::sync::Arc;

use vstd::prelude::*;

use crate::addr::{NetworkAddress, SocketAddr};
use crate::forwarded::{forwarded_host, forwarded_overruns, text_view};
use crate::inbound::{
    destination_check, fetched_destination_check, Config, Connection, DestinationCheck, Error,
    ProxyMode,
};
use crate::laws::{
    lemma_rank_grows, lemma_routed, lemma_target_is_kept, route_of, Course,
};
use crate::message::{header_values, method_text, uri_text, H2Request};
use crate::serve::{
    begins, transition, Action, Event, Phase, Reporter, ResponseFlags, SecurityPolicy,
    ServeConnect,
};
use crate::state::{AppProtocol, DemandProxyState, Workload};

verus! {

/// A request for a tunnel has the text of its target read. Any other request is refused: there is
/// nothing to be found. Either way the connection stays as it was accepted.
pub proof fn lemma_beginning<E>(
    conn: Connection,
    enable_original_source: bool,
    req: H2Request,
    next: ServeConnect,
    action: Action<E>,
)
    requires
        begins(conn, enable_original_source, req, next, action),
    ensures
        next.conn == conn,
        next.enable_original_source == enable_original_source,
        method_text(req.method) == "CONNECT"@ ==> {
            &&& next.phase == Phase::ParsingAddress
            &&& action matches Action::ParseAddress(uri) && uri@ == uri_text(req.uri)
        },
        method_text(req.method) != "CONNECT"@ ==> {
            &&& next.phase == Phase::Done
            &&& action matches Action::Refuse { deny, status } && {
                &&& status.number() == 404
                &&& deny.src == conn.src
                &&& deny.dst == conn.dst
                &&& deny.reporter == Reporter::Destination
                &&& deny.error matches Error::NonConnectMethod(method) && method@ == method_text(
                    req.method,
                )
            }
        },
{
}

/// A step changes nothing of a connection but its destination, and that only where it routes the
/// request.
pub proof fn lemma_connection_is_kept<E>(
    m: ServeConnect,
    cfg: Config,
    state: DemandProxyState,
    req: H2Request,
    event: Event<E>,
    next: ServeConnect,
    action: Action<E>,
)
    requires
        transition(m, cfg, state, req, event, next, action),
    ensures
        next.enable_original_source == m.enable_original_source,
        next.conn.src == m.conn.src,
        next.conn.src_identity == m.conn.src_identity,
        next.conn.dst_network == m.conn.dst_network,
        !(action is CheckGateway) ==> next.conn.dst == m.conn.dst,
{
}

/// A target that was read leads on to the workload. One that cannot be read makes a bad request,
/// and the refusal quotes it. A workload that cannot be loaded ends the request with that error.
pub proof fn lemma_target_step<E>(
    m: ServeConnect,
    cfg: Config,
    state: DemandProxyState,
    req: H2Request,
    event: Event<E>,
    next: ServeConnect,
    action: Action<E>,
)
    requires
        transition(m, cfg, state, req, event, next, action),
    ensures
        event matches Event::AddressParsed(Some(hbone_addr)) ==> {
            &&& next.phase == (Phase::LoadingWorkload { hbone_addr })
            &&& action == Action::<E>::LoadWorkload
        },
        event == Event::<E>::AddressParsed(None) ==> {
            &&& next.phase == Phase::Done
            &&& action matches Action::Refuse { deny, status } && {
                &&& status.number() == 400
                &&& deny.src == m.conn.src
                &&& deny.dst == m.conn.dst
                &&& deny.reporter == Reporter::Destination
                &&& deny.error matches Error::ConnectAddress(uri) && uri@ == uri_text(req.uri)
            }
        },
        event matches Event::WorkloadLoaded(Err(error)) ==> {
            &&& next.phase == Phase::Done
            &&& action == Action::Fail(error)
        },
{
}

/// The target and the workload on which a step decides, where it decides on a target.
pub open spec fn decided<E>(m: ServeConnect, event: Event<E>) -> Option<
    (SocketAddr, Arc<Workload>),
> {
    match (m.phase, event) {
        (Phase::LoadingWorkload { hbone_addr }, Event::WorkloadLoaded(Ok(workload))) => Some(
            (hbone_addr, workload),
        ),
        (Phase::FetchingTarget { hbone_addr, workload }, Event::TargetFetched) => Some(
            (hbone_addr, workload),
        ),
        _ => None,
    }
}

/// Whether a step allows the target on which it decides.
pub open spec fn allows<E>(m: ServeConnect, state: DemandProxyState, event: Event<E>) -> bool {
    decided(m, event) matches Some((hbone_addr, workload)) && if event is TargetFetched {
        fetched_destination_check(state.state, m.conn, *workload, hbone_addr) is Ok
    } else {
        destination_check(state, m.conn, *workload, hbone_addr) is Allowed
    }
}

/// A target that is not allowed is refused at the address that the connection was made to, with
/// both addresses. One that has to be asked for is asked for, once.
pub proof fn lemma_target_not_allowed<E>(
    m: ServeConnect,
    cfg: Config,
    state: DemandProxyState,
    req: H2Request,
    event: Event<E>,
    next: ServeConnect,
    action: Action<E>,
    hbone_addr: SocketAddr,
    workload: Arc<Workload>,
)
    requires
        transition(m, cfg, state, req, event, next, action),
        decided(m, event) == Some((hbone_addr, workload)),
        !allows(m, state, event),
    ensures
        event is WorkloadLoaded && destination_check(state, m.conn, *workload, hbone_addr) is FetchOnDemand
            ==> {
            &&& next.phase == (Phase::FetchingTarget { hbone_addr, workload })
            &&& action == Action::<E>::FetchTarget(
                NetworkAddress { network: m.conn.dst_network, address: hbone_addr.ip() },
            )
        },
        event is TargetFetched || destination_check(state, m.conn, *workload, hbone_addr) is Denied
            ==> {
            &&& next.phase == Phase::Done
            &&& action matches Action::Refuse { deny, status } && {
                &&& status.number() == 400
                &&& deny.src == m.conn.src
                &&& deny.dst == m.conn.dst
                &&& deny.reporter == Reporter::Destination
                &&& deny.error == Error::IPMismatch(m.conn.dst.ip(), hbone_addr.ip())
            }
        },
{
}

/// A request whose target is allowed is refused by a shared proxy where the port that it asks for
/// is one of those that the proxy is configured to refuse. With any other port, and by any other
/// proxy, it is routed.
pub proof fn lemma_allowed_target_is_routed<E>(
    m: ServeConnect,
    cfg: Config,
    state: DemandProxyState,
    req: H2Request,
    event: Event<E>,
    next: ServeConnect,
    action: Action<E>,
    hbone_addr: SocketAddr,
    workload: Arc<Workload>,
)
    requires
        transition(m, cfg, state, req, event, next, action),
        decided(m, event) == Some((hbone_addr, workload)),
        allows(m, state, event),
    ensures
        cfg.proxy_mode == ProxyMode::Shared && cfg.illegal_ports@.contains(hbone_addr.port()) ==> {
            &&& next.phase == Phase::Done
            &&& action matches Action::Refuse { deny, status } && {
                &&& status.number() == 400
                &&& deny.error == Error::SelfCall
                &&& deny.src == m.conn.src
                &&& deny.reporter == Reporter::Destination
                &&& deny.dst == SocketAddr::new(
                    m.conn.dst.ip(),
                    match workload.application_tunnel {
                        Some(tunnel) => match tunnel.port {
                            Some(own) => own,
                            None => hbone_addr.port(),
                        },
                        None => hbone_addr.port(),
                    },
                )
            }
        },
        cfg.proxy_mode != ProxyMode::Shared || !cfg.illegal_ports@.contains(hbone_addr.port())
            ==> {
            &&& action == (Action::<E>::CheckGateway {
                workload,
                src_identity: m.conn.src_identity,
            })
            &&& next.phase matches Phase::CheckingGateway { route, services } && {
                &&& route.hbone_addr == hbone_addr
                &&& route.original_dst == m.conn.dst
                &&& route.workload == workload
                &&& workload.application_tunnel is None ==> route.protocol == AppProtocol::NONE
                &&& workload.application_tunnel matches Some(tunnel) ==> route.protocol
                    == tunnel.protocol
                &&& services@ == state.state.services.of_workload(*workload)
            }
            &&& workload.application_tunnel is None ==> next.conn.dst == SocketAddr::new(
                m.conn.dst.ip(),
                hbone_addr.port(),
            )
            &&& workload.application_tunnel matches Some(tunnel) ==> {
                &&& tunnel.port is None ==> next.conn.dst == SocketAddr::new(
                    m.conn.dst.ip(),
                    hbone_addr.port(),
                )
                &&& tunnel.port matches Some(own) ==> next.conn.dst == SocketAddr::new(
                    m.conn.dst.ip(),
                    own,
                )
            }
        },
{
}

/// What follows on the later events of a request. A request that comes through a gateway is
/// described at once, and any other after its source was looked up. A described request is put up
/// for authorization, an authorized one is connected, a connected one is answered with success, and
/// an answered one is forwarded. Each failure ends the request, with that failure.
pub proof fn lemma_later_steps<E>(
    m: ServeConnect,
    cfg: Config,
    state: DemandProxyState,
    req: H2Request,
    event: Event<E>,
    next: ServeConnect,
    action: Action<E>,
)
    requires
        transition(m, cfg, state, req, event, next, action),
    ensures
        event is GatewayChecked && forwarded_overruns(req) ==> action == Action::<E>::Abandon
            && next.phase == Phase::Done,
        event == Event::<E>::GatewayChecked(true) && !forwarded_overruns(req) ==> action is Describe
            && next.phase is Describing,
        event == Event::<E>::GatewayChecked(false) && !forwarded_overruns(req) ==> {
            &&& next.phase is FetchingSource
            &&& action == Action::<E>::FetchSource(
                NetworkAddress { network: m.conn.dst_network, address: m.conn.src.ip() },
            )
        },
        event is SourceFetched ==> action is Describe && next.phase is Describing,
        event is Described ==> action is Authorize && next.phase is Authorizing,
        event matches Event::Authorized(Ok(_)) ==> {
            &&& next.phase is Connecting
            &&& action == (Action::<E>::Connect {
                orig_src: if m.enable_original_source {
                    Some(m.conn.src.ip())
                } else {
                    None
                },
                upstream: m.conn.dst,
            })
        },
        event matches Event::Authorized(Err(e)) ==> {
            &&& next.phase == Phase::Done
            &&& action matches Action::RefuseReported { error, flag, status } && {
                &&& error == e
                &&& flag == Some(ResponseFlags::AuthorizationPolicyDenied)
                &&& status.number() == 401
            }
        },
        event matches Event::Connected(Ok(_)) ==> {
            &&& next.phase is Responding
            &&& action matches Action::Respond(status) && status.number() == 200
        },
        event matches Event::Connected(Err(e)) ==> {
            &&& next.phase == Phase::Done
            &&& action matches Action::RefuseReported { error, flag, status } && {
                &&& error == e
                &&& flag is None
                &&& status.number() == 503
            }
        },
        event matches Event::Responded(Ok(_)) ==> action is Forward && next.phase
            == Phase::Forwarding,
        event matches Event::Responded(Err(e)) ==> action == Action::Fail(e) && next.phase
            == Phase::Done,
        event matches Event::Forwarded(result) ==> action == Action::Finish(result) && next.phase
            == Phase::Done,
{
}

/// The workload of a request, once it is loaded, is the one that was loaded.
proof fn lemma_workload_is_kept<E>(c: Course<E>, cfg: Config, req: H2Request, i: int)
    requires
        c.holds(cfg, req),
        0 <= i < c.stops.len(),
        route_of(c.stops[i].phase) is Some || c.stops[i].phase is FetchingTarget,
    ensures
        i > 1,
        route_of(c.stops[i].phase) matches Some(route) ==> c.events[1] == Event::<
            E,
        >::WorkloadLoaded(Ok(route.workload)),
        c.stops[i].phase matches Phase::FetchingTarget { workload, .. } ==> c.events[1] == Event::<
            E,
        >::WorkloadLoaded(Ok(workload)),
    decreases i,
{
    assert(i > 0);
    assert(c.step_holds(cfg, req, i - 1));
    if c.stops[i - 1].phase is LoadingWorkload {
        lemma_rank_grows(c, cfg, req, i - 1);
        assert(i - 1 == 1);
    } else {
        lemma_workload_is_kept(c, cfg, req, i - 1);
    }
}

/// The workload that a request is routed to, checked and authorized for is the one that was loaded,
/// which is the second thing that comes of a request.
pub proof fn lemma_loaded_workload_is_meant<E>(c: Course<E>, cfg: Config, req: H2Request, i: int)
    requires
        c.holds(cfg, req),
        0 <= i < c.events.len(),
    ensures
        c.actions[i] matches Action::CheckGateway { workload, src_identity } ==> {
            &&& c.events[1] == Event::<E>::WorkloadLoaded(Ok(workload))
            &&& src_identity == c.accepted().src_identity
        },
        c.actions[i] matches Action::Describe { workload, .. } ==> c.events[1] == Event::<
            E,
        >::WorkloadLoaded(Ok(workload)),
        c.actions[i] matches Action::Authorize { rbac_ctx, .. } ==> c.events[1] == Event::<
            E,
        >::WorkloadLoaded(Ok(rbac_ctx.dest_workload)),
{
    assert(c.step_holds(cfg, req, i));
    if c.actions[i] is CheckGateway {
        lemma_workload_is_kept(c, cfg, req, i + 1);
        lemma_routed(c, cfg, req, i + 1);
    }
    if c.actions[i] is Describe || c.actions[i] is Authorize {
        lemma_workload_is_kept(c, cfg, req, i);
    }
}

/// What a request is described by: its connection with the upstream as destination, the host that
/// it was forwarded for, the services that its workload was behind when it was routed, and each
/// value of its `baggage` header.
pub proof fn lemma_description<E>(c: Course<E>, cfg: Config, req: H2Request, i: int)
    requires
        c.holds(cfg, req),
        0 <= i < c.events.len(),
        c.actions[i] is Describe,
    ensures
        i > 1,
        c.actions[i] matches Action::Describe { conn, for_host, services, workload, baggage } && {
            let routed = if c.events[i] is GatewayChecked {
                i - 1
            } else {
                i - 2
            };
            &&& conn == c.stops[i].conn
            &&& conn.src == c.accepted().src
            &&& conn.src_identity == c.accepted().src_identity
            &&& conn.dst_network == c.accepted().dst_network
            &&& conn.dst.ip() == c.accepted().dst.ip()
            &&& text_view(for_host) == forwarded_host(req)
            &&& c.actions[routed] is CheckGateway
            &&& services@ == c.states[routed].state.services.of_workload(*workload)
            &&& header_values(req.headers).contains_key("baggage"@) ==> {
                &&& baggage@.len() == header_values(req.headers)["baggage"@].len()
                &&& forall|k: int|
                    0 <= k < baggage@.len() ==> (#[trigger] baggage@[k])@ == header_values(
                        req.headers,
                    )["baggage"@][k]
            }
            &&& !header_values(req.headers).contains_key("baggage"@) ==> baggage@.len() == 0
        },
{
    assert(c.step_holds(cfg, req, i));
    assert(i > 0);
    assert(c.step_holds(cfg, req, i - 1));
    lemma_routed(c, cfg, req, i);
    if c.events[i] is SourceFetched {
        assert(i > 1);
        assert(c.step_holds(cfg, req, i - 2));
    } else {
        lemma_workload_is_kept(c, cfg, req, i);
    }
    if let Action::Describe { baggage, .. } = c.actions[i] {
        let values = baggage@.map_values(|v: Vec<u8>| v@);
        assert forall|k: int| 0 <= k < baggage@.len() implies (#[trigger] baggage@[k])@
            == values[k] by {}
        assert(values.len() == baggage@.len());
    }
}

/// The report of a connection says of the client's workload what the client's `baggage` says, field
/// by field, and nothing where there is no `baggage`. It also says who the client proved to be, the
/// service that the request was taken to be for, and that the connection is secured on both sides.
pub proof fn lemma_report_says_what_the_client_says<E>(
    c: Course<E>,
    cfg: Config,
    req: H2Request,
    i: int,
)
    requires
        c.holds(cfg, req),
        0 <= i < c.events.len(),
        c.actions[i] is Authorize,
    ensures
        c.actions[i] matches Action::Authorize { report, rbac_ctx, for_host } && c.events[i] matches
            Event::Described { baggage, service } && {
            &&& report.open.destination_service == service
            &&& report.open.connection_security_policy == SecurityPolicy::MutualTls
            &&& report.open.destination == Some(rbac_ctx.dest_workload)
            &&& report.open.reporter == Reporter::Destination
            &&& report.src == c.accepted().src
            &&& report.dst == c.accepted().dst
            &&& report.hbone_addr is Some
            &&& report.open.derived_source matches Some(derived) && {
                &&& derived.identity == c.accepted().src_identity
                &&& baggage matches Some(b) ==> {
                    &&& derived.cluster_id == b.cluster_id
                    &&& derived.namespace == b.namespace
                    &&& derived.workload_name == b.workload_name
                    &&& derived.revision == b.revision
                }
                &&& baggage is None ==> {
                    &&& derived.cluster_id is None
                    &&& derived.namespace is None
                    &&& derived.workload_name is None
                    &&& derived.revision is None
                }
            }
            &&& rbac_ctx.conn == c.stops[i].conn
            &&& c.actions[i - 1] matches Action::Describe { conn, for_host: host, workload, .. } && {
                &&& rbac_ctx.conn == conn
                &&& rbac_ctx.dest_workload == workload
                &&& text_view(for_host) == text_view(host)
            }
        },
{
    assert(c.step_holds(cfg, req, i));
    assert(i > 0);
    assert(c.step_holds(cfg, req, i - 1));
    lemma_routed(c, cfg, req, i);
}

/// The address that the workload is connected to has the port that its tunnel names, or else the
/// one that the request names, and it is the address that authorization was asked for.
pub proof fn lemma_connected_where_authorized<E>(c: Course<E>, cfg: Config, req: H2Request, i: int)
    requires
        c.holds(cfg, req),
        0 <= i < c.events.len(),
        c.actions[i] is Connect,
    ensures
        i > 1,
        c.actions[i] matches Action::Connect { upstream, orig_src } && c.actions[i - 1] matches
            Action::Authorize { rbac_ctx, .. } && c.events[0] matches Event::AddressParsed(
            Some(hbone_addr),
        ) && c.events[1] matches Event::WorkloadLoaded(Ok(workload)) && {
            &&& upstream == rbac_ctx.conn.dst
            &&& workload == rbac_ctx.dest_workload
            &&& upstream.ip() == c.accepted().dst.ip()
            &&& upstream.port() == match workload.application_tunnel {
                Some(tunnel) => match tunnel.port {
                    Some(own) => own,
                    None => hbone_addr.port(),
                },
                None => hbone_addr.port(),
            }
            &&& orig_src is Some <==> c.stops[0].enable_original_source
            &&& orig_src matches Some(ip) ==> ip == c.accepted().src.ip()
        },
{
    assert(c.step_holds(cfg, req, i));
    assert(i > 0);
    assert(c.step_holds(cfg, req, i - 1));
    lemma_routed(c, cfg, req, i);
    lemma_target_is_kept(c, cfg, req, i);
    lemma_workload_is_kept(c, cfg, req, i);
}

/// The header in front of the forwarded bytes stands there exactly where the workload that was
/// loaded has a tunnel that wants it. It names the client, the identity that the client proved and
/// the address that was read of the request.
pub proof fn lemma_header_for_the_tunnel<E>(c: Course<E>, cfg: Config, req: H2Request, i: int)
    requires
        c.holds(cfg, req),
        0 <= i < c.events.len(),
        c.actions[i] is Forward,
    ensures
        c.actions[i] matches Action::Forward(header) && c.events[0] matches Event::AddressParsed(
            Some(hbone_addr),
        ) && c.events[1] matches Event::WorkloadLoaded(Ok(workload)) && {
            &&& header is Some <==> (workload.application_tunnel matches Some(tunnel)
                && tunnel.protocol == AppProtocol::PROXY)
            &&& header matches Some(h) ==> {
                &&& h.src == c.accepted().src
                &&& h.dst == hbone_addr
                &&& h.src_identity == c.accepted().src_identity
            }
        },
{
    assert(c.step_holds(cfg, req, i));
    lemma_routed(c, cfg, req, i);
    lemma_target_is_kept(c, cfg, req, i);
    lemma_workload_is_kept(c, cfg, req, i);
}

} // verus!
