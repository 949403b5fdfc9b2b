//! What holds of every request, whatever the surrounding work comes to.

pub mod destination;
pub mod headers;
pub mod lookup;
pub mod outcomes;

use vstd::prelude::*;

use crate::addr::{IpAddr, NetworkAddress, SocketAddr};
use crate::forwarded::{forwarded_host, text_view};
use crate::inbound::{
    destination_check, fetched_destination_check, ip_mismatch, is_illegal_call, needs_no_lookup,
    protocol_of, requested_address, targets_this_waypoint, upstream_of, Config, Connection,
    DestinationCheck, Error, ProxyMode,
};
use crate::message::{method_text, H2Request};
use crate::response::StatusCode;
use crate::serve::{
    begins, transition, Action, Event, Phase, Reporter, ResponseFlags, Route, ServeConnect,
};
use crate::state::{AppProtocol, DemandProxyState, Workload};

verus! {

/// A course of one request: where it stood before and after each event, what the proxy knew at
/// that time, and what was to be done next.
pub struct Course<E> {
    pub stops: Seq<ServeConnect>,
    pub states: Seq<DemandProxyState>,
    pub events: Seq<Event<E>>,
    pub actions: Seq<Action<E>>,
}

impl<E> Course<E> {
    /// Whether the request goes on as it must at one event.
    pub open spec fn step_holds(self, cfg: Config, req: H2Request, i: int) -> bool {
        &&& self.stops[i].awaits(self.events[i])
        &&& transition(
            self.stops[i],
            cfg,
            self.states[i],
            req,
            self.events[i],
            self.stops[i + 1],
            self.actions[i],
        )
    }

    /// Whether this is a course of a request that asks for a tunnel.
    pub open spec fn holds(self, cfg: Config, req: H2Request) -> bool {
        &&& self.stops.len() == self.events.len() + 1
        &&& self.states.len() == self.events.len()
        &&& self.actions.len() == self.events.len()
        &&& self.stops[0].phase == Phase::ParsingAddress
        &&& forall|i: int| 0 <= i < self.events.len() ==> #[trigger] self.step_holds(cfg, req, i)
    }

    /// The connection as it was accepted.
    pub open spec fn accepted(self) -> Connection {
        self.stops[0].conn
    }
}

/// How far a request has come.
pub open spec fn rank(phase: Phase) -> int {
    match phase {
        Phase::ParsingAddress => 0,
        Phase::LoadingWorkload { .. } => 1,
        Phase::FetchingTarget { .. } => 2,
        Phase::CheckingGateway { .. } => 3,
        Phase::FetchingSource { .. } => 4,
        Phase::Describing { .. } => 5,
        Phase::Authorizing { .. } => 6,
        Phase::Connecting { .. } => 7,
        Phase::Responding { .. } => 8,
        Phase::Forwarding => 9,
        Phase::Done => 10,
    }
}

/// The address that a request asks for, where it was read.
pub open spec fn target_of(phase: Phase) -> Option<SocketAddr> {
    match phase {
        Phase::LoadingWorkload { hbone_addr } => Some(hbone_addr),
        Phase::FetchingTarget { hbone_addr, .. } => Some(hbone_addr),
        _ => match route_of(phase) {
            Some(route) => Some(route.hbone_addr),
            None => None,
        },
    }
}

/// The route of a request, where it is routed and its tunnel is not open yet.
pub open spec fn route_of(phase: Phase) -> Option<Route> {
    match phase {
        Phase::CheckingGateway { route, .. } => Some(route),
        Phase::FetchingSource { route, .. } => Some(route),
        Phase::Describing { route, .. } => Some(route),
        Phase::Authorizing { route } => Some(route),
        Phase::Connecting { route } => Some(route),
        Phase::Responding { route } => Some(route),
        _ => None,
    }
}

/// Whether an action answers the request.
pub open spec fn answers<E>(action: Action<E>) -> bool {
    action is Refuse || action is RefuseReported || action is Respond
}

/// Whether an event is what comes of an action.
pub open spec fn comes_of<E>(event: Event<E>, action: Action<E>) -> bool {
    match action {
        Action::ParseAddress(_) => event is AddressParsed,
        Action::LoadWorkload => event is WorkloadLoaded,
        Action::FetchTarget(_) => event is TargetFetched,
        Action::CheckGateway { .. } => event is GatewayChecked,
        Action::FetchSource(_) => event is SourceFetched,
        Action::Describe { .. } => event is Described,
        Action::Authorize { .. } => event is Authorized,
        Action::Connect { .. } => event is Connected,
        Action::Respond(_) => event is Responded,
        Action::Forward(_) => event is Forwarded,
        _ => false,
    }
}

/// A request waits for exactly what comes of the action that it gave last, when it begins.
pub proof fn lemma_beginning_awaits_its_action<E>(
    conn: Connection,
    enable_original_source: bool,
    req: H2Request,
    next: ServeConnect,
    action: Action<E>,
    event: Event<E>,
)
    requires
        begins(conn, enable_original_source, req, next, action),
    ensures
        next.awaits(event) == comes_of(event, action),
{
}

/// A request waits for exactly what comes of the action that it gave last, at every step.
pub proof fn lemma_step_awaits_its_action<E>(
    m: ServeConnect,
    cfg: Config,
    state: DemandProxyState,
    req: H2Request,
    event: Event<E>,
    next: ServeConnect,
    action: Action<E>,
    following: Event<E>,
)
    requires
        transition(m, cfg, state, req, event, next, action),
    ensures
        next.awaits(following) == comes_of(following, action),
{
}

/// Every event takes a request further, so that a course has at most ten events.
pub proof fn lemma_course_ends<E>(c: Course<E>, cfg: Config, req: H2Request)
    requires
        c.holds(cfg, req),
    ensures
        c.events.len() <= 10,
        forall|i: int|
            0 <= i < c.events.len() ==> rank(#[trigger] c.stops[i].phase) < rank(
                c.stops[i + 1].phase,
            ),
{
    assert forall|i: int| 0 <= i < c.events.len() implies rank(#[trigger] c.stops[i].phase) < rank(
        c.stops[i + 1].phase,
    ) by {
        assert(c.step_holds(cfg, req, i));
    }
    lemma_rank_grows(c, cfg, req, c.events.len() as int);
}

proof fn lemma_rank_grows<E>(c: Course<E>, cfg: Config, req: H2Request, i: int)
    requires
        c.holds(cfg, req),
        0 <= i < c.stops.len(),
    ensures
        rank(c.stops[i].phase) >= i,
    decreases i,
{
    if i > 0 {
        lemma_rank_grows(c, cfg, req, i - 1);
        assert(c.step_holds(cfg, req, i - 1));
    }
}

proof fn lemma_rank_is_monotonic<E>(c: Course<E>, cfg: Config, req: H2Request, i: int, j: int)
    requires
        c.holds(cfg, req),
        0 <= i <= j < c.stops.len(),
    ensures
        rank(c.stops[i].phase) + (j - i) <= rank(c.stops[j].phase),
    decreases j - i,
{
    if i < j {
        lemma_rank_is_monotonic(c, cfg, req, i, j - 1);
        assert(c.step_holds(cfg, req, j - 1));
    }
}

/// A request is answered at most once.
pub proof fn lemma_at_most_one_answer<E>(c: Course<E>, cfg: Config, req: H2Request, i: int, j: int)
    requires
        c.holds(cfg, req),
        0 <= i < c.events.len(),
        0 <= j < c.events.len(),
        answers(c.actions[i]),
        answers(c.actions[j]),
    ensures
        i == j,
{
    assert(c.step_holds(cfg, req, i));
    assert(c.step_holds(cfg, req, j));
    if i < j {
        lemma_rank_is_monotonic(c, cfg, req, i + 1, j);
    }
    if j < i {
        lemma_rank_is_monotonic(c, cfg, req, j + 1, i);
    }
}

/// A course that came to its end was answered, unless the surrounding work failed where the
/// request ends without an answer, or the request was given up.
pub proof fn lemma_ended_course_was_answered<E>(c: Course<E>, cfg: Config, req: H2Request)
    requires
        c.holds(cfg, req),
        c.stops.last().phase == Phase::Done,
    ensures
        c.events.len() > 0,
        c.actions.last() is Fail || c.actions.last() is Abandon || exists|i: int|
            0 <= i < c.actions.len() && answers(#[trigger] c.actions[i]),
{
    let n = c.events.len() as int;
    assert(c.step_holds(cfg, req, n - 1));
    assert(c.actions[n - 1] == c.actions.last());
    if c.actions.last() is Finish {
        assert(c.step_holds(cfg, req, n - 2));
        assert(c.step_holds(cfg, req, n - 3));
        assert(answers(c.actions[n - 3]));
    }
}

/// What a refused request is answered when it begins: a request that does not ask for a tunnel
/// is answered that there is nothing to be found.
pub proof fn lemma_refusal_at_beginning<E>(
    conn: Connection,
    enable_original_source: bool,
    req: H2Request,
    next: ServeConnect,
    action: Action<E>,
)
    requires
        begins(conn, enable_original_source, req, next, action),
    ensures
        action is Refuse <==> method_text(req.method) != "CONNECT"@,
        action matches Action::Refuse { deny, status } ==> {
            &&& status == StatusCode::NotFound
            &&& deny.error matches Error::NonConnectMethod(method) && method@ == method_text(
                req.method,
            )
        },
        !(action is RefuseReported) && !(action is Respond),
{
}

/// What a request is answered later. A target that cannot be read, is not allowed or is the proxy
/// itself makes a bad request. A connection that is not authorized is answered so, and reported
/// so. A workload that cannot be reached makes the service unavailable. Success is answered only
/// when the workload was reached.
pub proof fn lemma_answers<E>(
    m: ServeConnect,
    cfg: Config,
    state: DemandProxyState,
    req: H2Request,
    event: Event<E>,
    next: ServeConnect,
    action: Action<E>,
)
    requires
        transition(m, cfg, state, req, event, next, action),
    ensures
        action matches Action::Refuse { deny, status } ==> {
            &&& status == StatusCode::BadRequest
            &&& deny.src == m.conn.src
            &&& deny.reporter == Reporter::Destination
            &&& deny.error is ConnectAddress || deny.error is IPMismatch || deny.error is SelfCall
            &&& !(deny.error is SelfCall) ==> deny.dst == m.conn.dst
        },
        action matches Action::RefuseReported { error, flag, status } ==> {
            ||| {
                &&& event == Event::Authorized(Err(error))
                &&& flag == Some(ResponseFlags::AuthorizationPolicyDenied)
                &&& status == StatusCode::Unauthorized
            }
            ||| {
                &&& event == Event::Connected(Err(error))
                &&& flag is None
                &&& status == StatusCode::ServiceUnavailable
            }
        },
        action matches Action::Respond(status) ==> status == StatusCode::OK && (event matches
            Event::Connected(Ok(_))),
{
}

/// A request that is refused before its connection opens is not connected, and one that was
/// connected is not refused that way.
pub proof fn lemma_refused_is_not_connected<E>(
    c: Course<E>,
    cfg: Config,
    req: H2Request,
    i: int,
    j: int,
)
    requires
        c.holds(cfg, req),
        0 <= i < c.events.len(),
        0 <= j < c.events.len(),
        c.actions[i] is Refuse,
    ensures
        !(c.actions[j] is Connect),
{
    assert(c.step_holds(cfg, req, i));
    assert(c.step_holds(cfg, req, j));
    if c.actions[j] is Connect {
        if i < j {
            lemma_rank_is_monotonic(c, cfg, req, i + 1, j);
        } else if j < i {
            lemma_rank_is_monotonic(c, cfg, req, j + 1, i);
        }
    }
}

/// The workload is connected to only when the connection was just authorized.
pub proof fn lemma_connected_only_when_authorized<E>(
    c: Course<E>,
    cfg: Config,
    req: H2Request,
    i: int,
)
    requires
        c.holds(cfg, req),
        0 <= i < c.events.len(),
        c.actions[i] is Connect,
    ensures
        c.events[i] matches Event::Authorized(Ok(_)),
        i > 0,
        c.actions[i - 1] is Authorize,
{
    assert(c.step_holds(cfg, req, i));
    assert(c.step_holds(cfg, req, i - 1));
}

/// Bytes are forwarded only after the connection was authorized, the workload was reached and
/// the answer, which is a success, went out.
pub proof fn lemma_forwarded_only_when_accepted<E>(
    c: Course<E>,
    cfg: Config,
    req: H2Request,
    i: int,
)
    requires
        c.holds(cfg, req),
        0 <= i < c.events.len(),
        c.actions[i] is Forward,
    ensures
        i > 2,
        c.events[i] matches Event::Responded(Ok(_)),
        c.actions[i - 1] == Action::<E>::Respond(StatusCode::OK),
        c.events[i - 1] matches Event::Connected(Ok(_)),
        c.actions[i - 2] is Connect,
        c.events[i - 2] matches Event::Authorized(Ok(_)),
{
    assert(c.step_holds(cfg, req, i));
    assert(c.step_holds(cfg, req, i - 1));
    assert(c.step_holds(cfg, req, i - 2));
    assert(c.step_holds(cfg, req, i - 3));
}

/// The address that a request is taken to ask for is the one that was read first, and does not
/// change.
pub proof fn lemma_target_is_kept<E>(c: Course<E>, cfg: Config, req: H2Request, i: int)
    requires
        c.holds(cfg, req),
        0 <= i < c.stops.len(),
        target_of(c.stops[i].phase) is Some,
    ensures
        i > 0,
        c.events[0] == Event::<E>::AddressParsed(target_of(c.stops[i].phase)),
    decreases i,
{
    if i > 0 {
        assert(c.step_holds(cfg, req, i - 1));
        if i > 1 {
            lemma_rank_grows(c, cfg, req, i - 1);
            lemma_target_is_kept(c, cfg, req, i - 1);
        }
    }
}

/// Whether a request's target was allowed by what the proxy knew at some event.
pub open spec fn was_allowed<E>(c: Course<E>, route: Route, at: int) -> bool {
    exists|j: int|
        0 <= j < at && #[trigger] targets_this_waypoint(
            c.states[j].state,
            c.accepted(),
            *route.workload,
            requested_address(c.accepted(), route.hbone_addr),
        ) == Some(true)
}

/// What holds of a routed request. Only the destination of its connection changed, and that is
/// the upstream. The route keeps the destination that the connection was made to. The request
/// does not ask a shared proxy for one of the proxy's own ports. And its target needed no lookup
/// or was allowed by what the proxy knew.
pub proof fn lemma_routed<E>(c: Course<E>, cfg: Config, req: H2Request, i: int)
    requires
        c.holds(cfg, req),
        0 <= i < c.stops.len(),
        route_of(c.stops[i].phase) is Some,
    ensures
        ({
            let route = route_of(c.stops[i].phase)->0;
            &&& c.stops[i].enable_original_source == c.stops[0].enable_original_source
            &&& c.stops[i].conn == Connection {
                dst: upstream_of(c.accepted(), *route.workload, route.hbone_addr),
                ..c.accepted()
            }
            &&& route.original_dst == c.accepted().dst
            &&& route.protocol == protocol_of(*route.workload)
            &&& !is_illegal_call(cfg, route.hbone_addr)
            &&& needs_no_lookup(c.accepted(), *route.workload, route.hbone_addr) || was_allowed(
                c,
                route,
                i,
            )
        }),
    decreases i,
{
    assert(i > 0);
    assert(c.step_holds(cfg, req, i - 1));
    let route = route_of(c.stops[i].phase)->0;
    if route_of(c.stops[i - 1].phase) is Some {
        lemma_routed(c, cfg, req, i - 1);
        if was_allowed(c, route, i - 1) {
            let j = choose|j: int|
                0 <= j < i - 1 && #[trigger] targets_this_waypoint(
                    c.states[j].state,
                    c.accepted(),
                    *route.workload,
                    requested_address(c.accepted(), route.hbone_addr),
                ) == Some(true);
            assert(0 <= j < i);
        }
    } else {
        lemma_unrouted(c, cfg, req, i - 1);
        assert(needs_no_lookup(c.accepted(), *route.workload, route.hbone_addr)
            || targets_this_waypoint(
            c.states[i - 1].state,
            c.accepted(),
            *route.workload,
            requested_address(c.accepted(), route.hbone_addr),
        ) == Some(true));
    }
}

/// Until a request is routed, its connection stays as it was accepted.
proof fn lemma_unrouted<E>(c: Course<E>, cfg: Config, req: H2Request, i: int)
    requires
        c.holds(cfg, req),
        0 <= i < c.stops.len(),
        rank(c.stops[i].phase) < 3,
    ensures
        c.stops[i].conn == c.accepted(),
        c.stops[i].enable_original_source == c.stops[0].enable_original_source,
    decreases i,
{
    if i > 0 {
        assert(c.step_holds(cfg, req, i - 1));
        lemma_unrouted(c, cfg, req, i - 1);
    }
}

/// The workload is connected to at its upstream, which has the address that the connection was
/// made to, whatever address the request asks for, and from the client's address where that is enabled. It is
/// never connected to for a request that asks a shared proxy for one of the proxy's own ports.
pub proof fn lemma_connect_goes_upstream<E>(
    c: Course<E>,
    cfg: Config,
    req: H2Request,
    i: int,
    orig_src: Option<IpAddr>,
    upstream: SocketAddr,
)
    requires
        c.holds(cfg, req),
        0 <= i < c.events.len(),
        c.actions[i] == (Action::<E>::Connect { orig_src, upstream }),
    ensures
        ({
            let route = route_of(c.stops[i].phase)->0;
            &&& route_of(c.stops[i].phase) is Some
            &&& upstream == upstream_of(c.accepted(), *route.workload, route.hbone_addr)
            &&& c.events[0] == Event::<E>::AddressParsed(Some(route.hbone_addr))
        }),
        upstream.ip() == c.accepted().dst.ip(),
        c.events[0] matches Event::AddressParsed(Some(hbone_addr)) && !is_illegal_call(
            cfg,
            hbone_addr,
        ),
        orig_src == if c.stops[0].enable_original_source {
            Some(c.accepted().src.ip())
        } else {
            None
        },
{
    assert(c.step_holds(cfg, req, i));
    lemma_routed(c, cfg, req, i);
    lemma_target_is_kept(c, cfg, req, i);
}

/// The report of a connection names the client, the destination that the connection was made to
/// and the address that the request asks for. Authorization is asked for the same connection
/// with the upstream as its destination, and for the host that the request was forwarded for.
pub proof fn lemma_report<E>(c: Course<E>, cfg: Config, req: H2Request, i: int)
    requires
        c.holds(cfg, req),
        0 <= i < c.events.len(),
        c.actions[i] is Authorize,
    ensures
        c.actions[i] matches Action::Authorize { report, rbac_ctx, for_host } && {
            &&& report.src == c.accepted().src
            &&& report.dst == c.accepted().dst
            &&& c.events[0] == Event::<E>::AddressParsed(report.hbone_addr)
            &&& report.open.reporter == Reporter::Destination
            &&& report.open.destination == Some(rbac_ctx.dest_workload)
            &&& report.open.derived_source matches Some(derived) && derived.identity
                == c.accepted().src_identity
            &&& rbac_ctx.conn == Connection {
                dst: upstream_of(
                    c.accepted(),
                    *rbac_ctx.dest_workload,
                    report.hbone_addr->0,
                ),
                ..c.accepted()
            }
            &&& text_view(for_host) == forwarded_host(req)
        },
{
    assert(c.step_holds(cfg, req, i));
    lemma_routed(c, cfg, req, i);
    lemma_target_is_kept(c, cfg, req, i);
    assert(c.step_holds(cfg, req, i - 1));
    assert(c.step_holds(cfg, req, i - 2));
}

/// The source of a request is looked up only where the request does not come through a gateway,
/// on the proxy's own network and at the client's address. No other source is reported.
pub proof fn lemma_source_lookup<E>(c: Course<E>, cfg: Config, req: H2Request, i: int)
    requires
        c.holds(cfg, req),
        0 <= i < c.events.len(),
    ensures
        c.actions[i] matches Action::FetchSource(addr) ==> {
            &&& c.events[i] == Event::<E>::GatewayChecked(false)
            &&& addr == NetworkAddress {
                network: c.accepted().dst_network,
                address: c.accepted().src.ip(),
            }
        },
        c.actions[i] matches Action::Authorize { report, .. } ==> {
            ||| report.open.source is None && c.events[i - 1] == Event::<E>::GatewayChecked(true)
            ||| c.events[i - 1] == Event::<E>::SourceFetched(report.open.source) && c.actions[i
                - 2] is FetchSource
        },
{
    assert(c.step_holds(cfg, req, i));
    if c.actions[i] is FetchSource {
        lemma_routed(c, cfg, req, i);
    }
    if c.actions[i] is Authorize {
        assert(c.step_holds(cfg, req, i - 1));
        assert(c.step_holds(cfg, req, i - 2));
    }
}

/// What stands in front of the forwarded bytes names the client and the address that the
/// request asks for, and stands there only for a workload whose tunnel wants it.
pub proof fn lemma_proxy_header<E>(c: Course<E>, cfg: Config, req: H2Request, i: int)
    requires
        c.holds(cfg, req),
        0 <= i < c.events.len(),
    ensures
        c.actions[i] matches Action::Forward(Some(header)) ==> {
            &&& header.src == c.accepted().src
            &&& c.events[0] == Event::<E>::AddressParsed(Some(header.dst))
            &&& header.src_identity == c.accepted().src_identity
        },
        c.actions[i] matches Action::Forward(header) ==> {
            let route = route_of(c.stops[i].phase)->0;
            header is Some <==> (route.workload.application_tunnel matches Some(tunnel)
                && tunnel.protocol == AppProtocol::PROXY)
        },
{
    assert(c.step_holds(cfg, req, i));
    if c.actions[i] is Forward {
        lemma_routed(c, cfg, req, i);
        lemma_target_is_kept(c, cfg, req, i);
    }
}

/// What can be known of a target is fetched at most once, and only where the target is not the
/// connection's own address, the workload has no tunnel, the target is not known and the proxy
/// can ask for it.
pub proof fn lemma_fetched_at_most_once<E>(c: Course<E>, cfg: Config, req: H2Request, i: int)
    requires
        c.holds(cfg, req),
        0 <= i < c.events.len(),
        c.actions[i] is FetchTarget,
    ensures
        i == 1,
        c.states[i].on_demand,
        c.events[i] matches Event::WorkloadLoaded(Ok(workload)) && c.events[0] matches
            Event::AddressParsed(Some(hbone_addr)) && {
            &&& !needs_no_lookup(c.accepted(), *workload, hbone_addr)
            &&& c.states[i].state.at_address(requested_address(c.accepted(), hbone_addr)) is None
            &&& c.actions[i] == Action::<E>::FetchTarget(
                requested_address(c.accepted(), hbone_addr),
            )
        },
{
    assert(c.step_holds(cfg, req, i));
    lemma_target_is_kept(c, cfg, req, i);
    lemma_unrouted(c, cfg, req, i);
    lemma_rank_grows(c, cfg, req, i);
}

/// A target is allowed without a lookup where the connection was made to its address or the
/// workload has a tunnel of its own.
pub proof fn lemma_allowed_without_lookup(
    state: DemandProxyState,
    conn: Connection,
    local: Workload,
    hbone_addr: SocketAddr,
)
    requires
        conn.dst.ip() == hbone_addr.ip() || local.application_tunnel is Some,
    ensures
        destination_check(state, conn, local, hbone_addr) == DestinationCheck::Allowed,
{
}

/// Any other target is allowed only where it has the waypoint that the connection was made to.
/// A target that is not known is refused, at once where the proxy cannot ask for it, and
/// otherwise where it is still not known after the proxy asked.
pub proof fn lemma_allowed_by_waypoint(
    state: DemandProxyState,
    conn: Connection,
    local: Workload,
    hbone_addr: SocketAddr,
)
    requires
        conn.dst.ip() != hbone_addr.ip(),
        local.application_tunnel is None,
    ensures
        destination_check(state, conn, local, hbone_addr) is Allowed <==> targets_this_waypoint(
            state.state,
            conn,
            local,
            requested_address(conn, hbone_addr),
        ) == Some(true),
        fetched_destination_check(state.state, conn, local, hbone_addr) is Ok
            <==> destination_check(state, conn, local, hbone_addr) is Allowed,
        state.state.at_address(requested_address(conn, hbone_addr)) is None ==> {
            &&& fetched_destination_check(state.state, conn, local, hbone_addr) == Err::<(), _>(
                ip_mismatch(conn, hbone_addr),
            )
            &&& !state.on_demand ==> destination_check(state, conn, local, hbone_addr)
                == DestinationCheck::Denied(ip_mismatch(conn, hbone_addr))
            &&& state.on_demand ==> destination_check(state, conn, local, hbone_addr)
                == DestinationCheck::FetchOnDemand(requested_address(conn, hbone_addr))
        },
{
}

/// Of the address that a request asks for, the upstream takes nothing but the port, and not even
/// that where the workload's tunnel names a port.
pub proof fn lemma_upstream_takes_only_the_port(
    conn: Connection,
    local: Workload,
    hbone_addr: SocketAddr,
    other: SocketAddr,
)
    ensures
        upstream_of(conn, local, hbone_addr).ip() == conn.dst.ip(),
        hbone_addr.port() == other.port() ==> upstream_of(conn, local, hbone_addr) == upstream_of(
            conn,
            local,
            other,
        ),
        local.application_tunnel is None ==> upstream_of(conn, local, hbone_addr).port()
            == hbone_addr.port() && protocol_of(local) == AppProtocol::NONE,
        local.application_tunnel matches Some(tunnel) ==> (tunnel.port matches Some(port)
            ==> upstream_of(conn, local, hbone_addr).port() == port),
{
}

/// A proxy that serves a single workload refuses no port.
pub proof fn lemma_dedicated_proxy_refuses_no_port(cfg: Config, hbone_addr: SocketAddr)
    requires
        cfg.proxy_mode == ProxyMode::Dedicated,
    ensures
        !is_illegal_call(cfg, hbone_addr),
{
}

} // verus!
