//! What the proxy knows of workloads and services, and how it finds them.

use std::sync::Arc;

use vstd::prelude::*;

use crate::addr::{IpAddr, NetworkAddress};

verus! {

/// A hostname within a namespace.
#[derive(Debug)]
pub struct NamespacedHostname {
    pub namespace: String,
    pub hostname: String,
}

/// How a gateway is referred to.
#[derive(Debug)]
pub enum Destination {
    Address(NetworkAddress),
    Hostname(NamespacedHostname),
}

/// A reference to a gateway, such as a waypoint.
#[derive(Debug)]
pub struct GatewayAddress {
    pub destination: Destination,
    pub hbone_mtls_port: u16,
}

/// What a workload's own tunnel wants to see in front of the forwarded bytes.
#[derive(Clone, Copy, Debug, PartialEq, Eq, Structural)]
pub enum AppProtocol {
    NONE,
    PROXY,
}

/// A tunnel that a workload terminates itself.
#[derive(Clone, Copy, Debug)]
pub struct ApplicationTunnel {
    pub port: Option<u16>,
    pub protocol: AppProtocol,
}

/// A workload.
#[derive(Debug)]
pub struct Workload {
    pub uid: String,
    pub name: String,
    pub namespace: String,
    pub service_account: String,
    pub network: String,
    pub hostname: String,
    pub workload_ips: Vec<IpAddr>,
    pub waypoint: Option<GatewayAddress>,
    pub application_tunnel: Option<ApplicationTunnel>,
}

/// A workload behind a service.
#[derive(Debug)]
pub struct Endpoint {
    pub workload_uid: String,
}

/// A service.
#[derive(Debug)]
pub struct Service {
    pub name: String,
    pub namespace: String,
    pub hostname: String,
    pub vips: Vec<NetworkAddress>,
    pub endpoints: Vec<Endpoint>,
    pub waypoint: Option<GatewayAddress>,
}

/// What an address belongs to.
#[derive(Debug)]
pub enum Address {
    Service(Arc<Service>),
    Workload(Arc<Workload>),
}

/// The workloads that the proxy knows, in the order in which they were inserted. Each has a uid
/// of its own.
pub struct WorkloadStore {
    entries: Vec<Arc<Workload>>,
}

/// The services that the proxy knows, in the order in which they were inserted. Each has a
/// hostname of its own within its namespace.
pub struct ServiceStore {
    entries: Vec<Arc<Service>>,
}

/// What the proxy knows.
pub struct ProxyState {
    pub workloads: WorkloadStore,
    pub services: ServiceStore,
}

/// What the proxy knows, and whether it can ask for what it does not know.
pub struct DemandProxyState {
    pub state: ProxyState,
    pub on_demand: bool,
}

/// Calls `clone` of `std::sync::Arc`, which gives one more pointer to the same value.
#[verifier::external_body]
pub(crate) fn share<T>(value: &Arc<T>) -> (shared: Arc<T>)
    ensures
        shared == *value,
{
    value.clone()
}

/// The last element that fits.
pub open spec fn latest<T>(items: Seq<T>, fits: spec_fn(T) -> bool) -> Option<T>
    decreases items.len(),
{
    if items.len() == 0 {
        None
    } else if fits(items.last()) {
        Some(items.last())
    } else {
        latest(items.drop_last(), fits)
    }
}

/// What `latest` gives is an element that fits, and there is one where any element fits.
proof fn lemma_latest<T>(items: Seq<T>, fits: spec_fn(T) -> bool)
    ensures
        match latest(items, fits) {
            Some(item) => items.contains(item) && fits(item),
            None => forall|i: int| 0 <= i < items.len() ==> !fits(#[trigger] items[i]),
        },
    decreases items.len(),
{
    if items.len() > 0 {
        if fits(items.last()) {
            assert(items[items.len() - 1] == items.last());
        } else {
            let rest = items.drop_last();
            lemma_latest(rest, fits);
            match latest(rest, fits) {
                Some(item) => {
                    let i = choose|i: int| 0 <= i < rest.len() && rest[i] == item;
                    assert(items[i] == item);
                },
                None => {
                    assert forall|i: int| 0 <= i < items.len() implies !fits(
                        #[trigger] items[i],
                    ) by {
                        if i < rest.len() {
                            assert(items[i] == rest[i]);
                        }
                    }
                },
            }
        }
    }
}

/// Dropping elements that do not fit changes nothing.
proof fn lemma_latest_filter<T>(
    items: Seq<T>,
    keep: spec_fn(T) -> bool,
    fits: spec_fn(T) -> bool,
)
    requires
        forall|i: int| 0 <= i < items.len() && fits(#[trigger] items[i]) ==> keep(items[i]),
    ensures
        latest(items.filter(keep), fits) == latest(items, fits),
    decreases items.len(),
{
    reveal(Seq::filter);
    if items.len() > 0 {
        let rest = items.drop_last();
        assert forall|i: int| 0 <= i < rest.len() && fits(#[trigger] rest[i]) implies keep(
            rest[i],
        ) by {
            assert(items[i] == rest[i]);
        }
        lemma_latest_filter(rest, keep, fits);
        assert(items[items.len() - 1] == items.last());
        if keep(items.last()) {
            assert(items.filter(keep).drop_last() =~= rest.filter(keep));
        }
    }
}

impl Workload {
    /// Whether an address is one of the workload's.
    pub open spec fn owns(&self, addr: NetworkAddress) -> bool {
        self.network@ == addr.network@ && self.workload_ips@.contains(addr.address)
    }

    /// Whether the workload has an IP address.
    pub open spec fn has_ip(&self, ip: IpAddr) -> bool {
        self.workload_ips@.contains(ip)
    }

    /// Whether one of the workload's addresses is `ip`.
    pub fn contains_ip(&self, ip: IpAddr) -> (found: bool)
        ensures
            found == self.has_ip(ip),
    {
        let mut i: usize = 0;
        while i < self.workload_ips.len()
            invariant
                i <= self.workload_ips@.len(),
                forall|j: int| 0 <= j < i ==> self.workload_ips@[j] != ip,
            decreases self.workload_ips@.len() - i,
        {
            if self.workload_ips[i] == ip {
                return true;
            }
            i += 1;
        }
        false
    }

    fn owns_address(&self, addr: &NetworkAddress) -> (found: bool)
        ensures
            found == self.owns(*addr),
    {
        self.network == addr.network && self.contains_ip(addr.address)
    }
}

impl Service {
    /// Whether an address is one of the service's.
    pub open spec fn owns(&self, addr: NetworkAddress) -> bool {
        exists|i: int| 0 <= i < self.vips@.len() && (#[trigger] self.vips@[i]).same(addr)
    }

    /// Whether a workload is behind the service.
    pub open spec fn has_endpoint(&self, workload: Workload) -> bool {
        exists|i: int|
            0 <= i < self.endpoints@.len() && (#[trigger] self.endpoints@[i]).workload_uid@
                == workload.uid@
    }

    /// Whether the service is known under a hostname.
    pub open spec fn is_named(&self, name: NamespacedHostname) -> bool {
        self.namespace@ == name.namespace@ && self.hostname@ == name.hostname@
    }

    fn owns_address(&self, addr: &NetworkAddress) -> (found: bool)
        ensures
            found == self.owns(*addr),
    {
        let mut i: usize = 0;
        while i < self.vips.len()
            invariant
                i <= self.vips@.len(),
                forall|j: int| 0 <= j < i ==> !(#[trigger] self.vips@[j]).same(*addr),
            decreases self.vips@.len() - i,
        {
            if self.vips[i].is_same(addr) {
                return true;
            }
            i += 1;
        }
        false
    }

    /// Whether a workload is one of the service's endpoints.
    pub fn contains_endpoint(&self, workload: &Workload) -> (found: bool)
        ensures
            found == self.has_endpoint(*workload),
    {
        let mut i: usize = 0;
        while i < self.endpoints.len()
            invariant
                i <= self.endpoints@.len(),
                forall|j: int|
                    0 <= j < i ==> (#[trigger] self.endpoints@[j]).workload_uid@ != workload.uid@,
            decreases self.endpoints@.len() - i,
        {
            if self.endpoints[i].workload_uid == workload.uid {
                return true;
            }
            i += 1;
        }
        false
    }
}

impl View for WorkloadStore {
    type V = Seq<Arc<Workload>>;

    closed spec fn view(&self) -> Seq<Arc<Workload>> {
        self.entries@
    }
}

impl View for ServiceStore {
    type V = Seq<Arc<Service>>;

    closed spec fn view(&self) -> Seq<Arc<Service>> {
        self.entries@
    }
}

/// Whether any two elements are apart.
pub open spec fn pairwise<T>(items: Seq<T>, apart: spec_fn(T, T) -> bool) -> bool {
    forall|i: int, j: int|
        0 <= i < j < items.len() ==> apart(#[trigger] items[i], #[trigger] items[j])
}

/// Whether each workload has a uid of its own.
pub open spec fn distinct_uids(workloads: Seq<Arc<Workload>>) -> bool {
    pairwise(workloads, |a: Arc<Workload>, b: Arc<Workload>| a.uid@ != b.uid@)
}

/// Whether each service has a hostname of its own within its namespace.
pub open spec fn distinct_names(services: Seq<Arc<Service>>) -> bool {
    pairwise(
        services,
        |a: Arc<Service>, b: Arc<Service>|
            a.namespace@ != b.namespace@ || a.hostname@ != b.hostname@,
    )
}

/// The workloads without the one that has a uid.
pub open spec fn other_workloads(workloads: Seq<Arc<Workload>>, uid: Seq<char>) -> Seq<
    Arc<Workload>,
> {
    workloads.filter(|w: Arc<Workload>| w.uid@ != uid)
}

/// The services without the one that has the names of `service`.
pub open spec fn other_services(services: Seq<Arc<Service>>, service: Service) -> Seq<
    Arc<Service>,
> {
    services.filter(
        |s: Arc<Service>| s.namespace@ != service.namespace@ || s.hostname@ != service.hostname@,
    )
}

impl WorkloadStore {
    /// A store without workloads.
    pub fn new() -> (store: WorkloadStore)
        ensures
            store@ == Seq::<Arc<Workload>>::empty(),
            distinct_uids(store@),
    {
        WorkloadStore { entries: Vec::new() }
    }

    /// Inserts a workload, in place of the one that has its uid.
    pub fn insert(&mut self, workload: Arc<Workload>)
        ensures
            final(self)@ == other_workloads(old(self)@, workload.uid@).push(workload),
            distinct_uids(old(self)@) ==> distinct_uids(final(self)@),
    {
        let ghost before = self.entries@;
        let ghost keep = |w: Arc<Workload>| w.uid@ != workload.uid@;
        let mut entries: Vec<Arc<Workload>> = Vec::new();
        let mut i: usize = 0;
        assert(before.take(0).filter(keep) =~= Seq::<Arc<Workload>>::empty()) by {
            reveal(Seq::filter);
        }
        while i < self.entries.len()
            invariant
                i <= self.entries@.len(),
                self.entries@ == before,
                keep == (|w: Arc<Workload>| w.uid@ != workload.uid@),
                entries@ == before.take(i as int).filter(keep),
            decreases self.entries@.len() - i,
        {
            proof {
                reveal(Seq::filter);
                assert(before.take(i + 1).drop_last() =~= before.take(i as int));
            }
            if !(self.entries[i].uid == workload.uid) {
                entries.push(share(&self.entries[i]));
            }
            i += 1;
        }
        proof {
            assert(before.take(i as int) =~= before);
            lemma_filter_keeps_apart(
                before,
                keep,
                |a: Arc<Workload>, b: Arc<Workload>| a.uid@ != b.uid@,
            );
        }
        entries.push(workload);
        self.entries = entries;
    }

    /// The workload that was given an address last.
    pub open spec fn at_address(self, addr: NetworkAddress) -> Option<Arc<Workload>> {
        latest(self@, |w: Arc<Workload>| w.owns(addr))
    }

    /// The workload that was given a hostname last. The empty hostname belongs to none.
    pub open spec fn at_hostname(self, hostname: Seq<char>) -> Option<Arc<Workload>> {
        latest(self@, |w: Arc<Workload>| w.hostname@.len() > 0 && w.hostname@ == hostname)
    }

    /// Finds a workload by address.
    pub fn find_address(&self, addr: &NetworkAddress) -> (found: Option<Arc<Workload>>)
        ensures
            found == self.at_address(*addr),
    {
        let ghost fits = |w: Arc<Workload>| w.owns(*addr);
        let mut i: usize = self.entries.len();
        assert(self@.take(i as int) =~= self@);
        while i > 0
            invariant
                i <= self.entries@.len(),
                self@ == self.entries@,
                fits == (|w: Arc<Workload>| w.owns(*addr)),
                latest(self@.take(i as int), fits) == latest(self@, fits),
            decreases i,
        {
            i -= 1;
            assert(self@.take(i + 1).drop_last() =~= self@.take(i as int));
            assert(self@.take(i + 1).last() == self@[i as int]);
            if self.entries[i].owns_address(addr) {
                return Some(share(&self.entries[i]));
            }
        }
        None
    }

    /// Finds a workload by hostname.
    pub fn find_hostname(&self, hostname: &String) -> (found: Option<Arc<Workload>>)
        ensures
            found == self.at_hostname(hostname@),
    {
        let ghost fits = |w: Arc<Workload>| w.hostname@.len() > 0 && w.hostname@ == hostname@;
        let mut i: usize = self.entries.len();
        assert(self@.take(i as int) =~= self@);
        while i > 0
            invariant
                i <= self.entries@.len(),
                self@ == self.entries@,
                fits == (|w: Arc<Workload>| w.hostname@.len() > 0 && w.hostname@ == hostname@),
                latest(self@.take(i as int), fits) == latest(self@, fits),
            decreases i,
        {
            i -= 1;
            assert(self@.take(i + 1).drop_last() =~= self@.take(i as int));
            assert(self@.take(i + 1).last() == self@[i as int]);
            if !self.entries[i].hostname.as_str().is_empty() && self.entries[i].hostname
                == *hostname {
                return Some(share(&self.entries[i]));
            }
        }
        None
    }
}

impl ServiceStore {
    /// A store without services.
    pub fn new() -> (store: ServiceStore)
        ensures
            store@ == Seq::<Arc<Service>>::empty(),
            distinct_names(store@),
    {
        ServiceStore { entries: Vec::new() }
    }

    /// Inserts a service, in place of the one that has its namespace and hostname.
    pub fn insert(&mut self, service: Arc<Service>)
        ensures
            final(self)@ == other_services(old(self)@, *service).push(service),
            distinct_names(old(self)@) ==> distinct_names(final(self)@),
    {
        let ghost before = self.entries@;
        let ghost keep = |s: Arc<Service>|
            s.namespace@ != service.namespace@ || s.hostname@ != service.hostname@;
        let mut entries: Vec<Arc<Service>> = Vec::new();
        let mut i: usize = 0;
        assert(before.take(0).filter(keep) =~= Seq::<Arc<Service>>::empty()) by {
            reveal(Seq::filter);
        }
        while i < self.entries.len()
            invariant
                i <= self.entries@.len(),
                self.entries@ == before,
                keep == (|s: Arc<Service>|
                    s.namespace@ != service.namespace@ || s.hostname@ != service.hostname@),
                entries@ == before.take(i as int).filter(keep),
            decreases self.entries@.len() - i,
        {
            proof {
                reveal(Seq::filter);
                assert(before.take(i + 1).drop_last() =~= before.take(i as int));
            }
            if !(self.entries[i].namespace == service.namespace && self.entries[i].hostname
                == service.hostname) {
                entries.push(share(&self.entries[i]));
            }
            i += 1;
        }
        proof {
            assert(before.take(i as int) =~= before);
            lemma_filter_keeps_apart(
                before,
                keep,
                |a: Arc<Service>, b: Arc<Service>|
                    a.namespace@ != b.namespace@ || a.hostname@ != b.hostname@,
            );
        }
        entries.push(service);
        self.entries = entries;
    }

    /// The service that was given an address last.
    pub open spec fn at_vip(self, addr: NetworkAddress) -> Option<Arc<Service>> {
        latest(self@, |s: Arc<Service>| s.owns(addr))
    }

    /// The service that was given a hostname last.
    pub open spec fn at_name(self, name: NamespacedHostname) -> Option<Arc<Service>> {
        latest(self@, |s: Arc<Service>| s.is_named(name))
    }

    /// The services that a workload is behind.
    pub open spec fn of_workload(self, workload: Workload) -> Seq<Arc<Service>> {
        self@.filter(|s: Arc<Service>| s.has_endpoint(workload))
    }

    /// Finds a service by one of its addresses.
    pub fn get_by_vip(&self, addr: &NetworkAddress) -> (found: Option<Arc<Service>>)
        ensures
            found == self.at_vip(*addr),
    {
        let ghost fits = |s: Arc<Service>| s.owns(*addr);
        let mut i: usize = self.entries.len();
        assert(self@.take(i as int) =~= self@);
        while i > 0
            invariant
                i <= self.entries@.len(),
                self@ == self.entries@,
                fits == (|s: Arc<Service>| s.owns(*addr)),
                latest(self@.take(i as int), fits) == latest(self@, fits),
            decreases i,
        {
            i -= 1;
            assert(self@.take(i + 1).drop_last() =~= self@.take(i as int));
            assert(self@.take(i + 1).last() == self@[i as int]);
            if self.entries[i].owns_address(addr) {
                return Some(share(&self.entries[i]));
            }
        }
        None
    }

    /// Finds a service by its hostname.
    pub fn get_by_namespaced_host(&self, name: &NamespacedHostname) -> (found: Option<Arc<Service>>)
        ensures
            found == self.at_name(*name),
    {
        let ghost fits = |s: Arc<Service>| s.is_named(*name);
        let mut i: usize = self.entries.len();
        assert(self@.take(i as int) =~= self@);
        while i > 0
            invariant
                i <= self.entries@.len(),
                self@ == self.entries@,
                fits == (|s: Arc<Service>| s.is_named(*name)),
                latest(self@.take(i as int), fits) == latest(self@, fits),
            decreases i,
        {
            i -= 1;
            assert(self@.take(i + 1).drop_last() =~= self@.take(i as int));
            assert(self@.take(i + 1).last() == self@[i as int]);
            if self.entries[i].namespace == name.namespace && self.entries[i].hostname
                == name.hostname {
                return Some(share(&self.entries[i]));
            }
        }
        None
    }

    /// Lists the services that a workload is behind.
    pub fn get_by_workload(&self, workload: &Workload) -> (services: Vec<Arc<Service>>)
        ensures
            services@ == self.of_workload(*workload),
    {
        let ghost behind = |s: Arc<Service>| s.has_endpoint(*workload);
        let mut services: Vec<Arc<Service>> = Vec::new();
        let mut i: usize = 0;
        assert(self@.take(0).filter(behind) =~= Seq::<Arc<Service>>::empty()) by {
            reveal(Seq::filter);
        }
        while i < self.entries.len()
            invariant
                i <= self.entries@.len(),
                self@ == self.entries@,
                behind == (|s: Arc<Service>| s.has_endpoint(*workload)),
                services@ == self@.take(i as int).filter(behind),
            decreases self.entries@.len() - i,
        {
            proof {
                reveal(Seq::filter);
                assert(self@.take(i + 1).drop_last() =~= self@.take(i as int));
            }
            if self.entries[i].contains_endpoint(workload) {
                services.push(share(&self.entries[i]));
            }
            i += 1;
        }
        assert(self@.take(i as int) =~= self@);
        services
    }
}

impl ProxyState {
    /// A state without workloads and services.
    pub fn new() -> (state: ProxyState)
        ensures
            state.workloads@ == Seq::<Arc<Workload>>::empty(),
            state.services@ == Seq::<Arc<Service>>::empty(),
    {
        ProxyState { workloads: WorkloadStore::new(), services: ServiceStore::new() }
    }

    /// What an address belongs to: a workload, or else a service.
    pub open spec fn at_address(self, addr: NetworkAddress) -> Option<Address> {
        match self.workloads.at_address(addr) {
            Some(workload) => Some(Address::Workload(workload)),
            None => match self.services.at_vip(addr) {
                Some(service) => Some(Address::Service(service)),
                None => None,
            },
        }
    }

    /// What a hostname belongs to: a service, or else a workload, whose hostname needs no
    /// namespace.
    pub open spec fn at_hostname(self, name: NamespacedHostname) -> Option<Address> {
        match self.services.at_name(name) {
            Some(service) => Some(Address::Service(service)),
            None => match self.workloads.at_hostname(name.hostname@) {
                Some(workload) => Some(Address::Workload(workload)),
                None => None,
            },
        }
    }

    /// What a reference to a gateway leads to.
    pub open spec fn at_destination(self, destination: Destination) -> Option<Address> {
        match destination {
            Destination::Address(addr) => self.at_address(addr),
            Destination::Hostname(name) => self.at_hostname(name),
        }
    }

    /// Finds what an address belongs to.
    pub fn find_address(&self, addr: &NetworkAddress) -> (found: Option<Address>)
        ensures
            found == self.at_address(*addr),
    {
        match self.workloads.find_address(addr) {
            Some(workload) => Some(Address::Workload(workload)),
            None => match self.services.get_by_vip(addr) {
                Some(service) => Some(Address::Service(service)),
                None => None,
            },
        }
    }

    /// Finds what a hostname belongs to.
    pub fn find_hostname(&self, name: &NamespacedHostname) -> (found: Option<Address>)
        ensures
            found == self.at_hostname(*name),
    {
        match self.services.get_by_namespaced_host(name) {
            Some(service) => Some(Address::Service(service)),
            None => match self.workloads.find_hostname(&name.hostname) {
                Some(workload) => Some(Address::Workload(workload)),
                None => None,
            },
        }
    }

    /// Finds what a reference to a gateway leads to.
    pub fn find_destination(&self, destination: &Destination) -> (found: Option<Address>)
        ensures
            found == self.at_destination(*destination),
    {
        match destination {
            Destination::Address(addr) => self.find_address(addr),
            Destination::Hostname(name) => self.find_hostname(name),
        }
    }
}

/// The elements that a filter keeps are elements that it fits, and stay apart where all elements
/// were apart.
pub(crate) proof fn lemma_filter_keeps_apart<T>(
    items: Seq<T>,
    keep: spec_fn(T) -> bool,
    apart: spec_fn(T, T) -> bool,
)
    ensures
        forall|i: int|
            0 <= i < items.filter(keep).len() ==> keep(#[trigger] items.filter(keep)[i])
                && items.contains(items.filter(keep)[i]),
        pairwise(items, apart) ==> pairwise(items.filter(keep), apart),
    decreases items.len(),
{
    reveal(Seq::filter);
    if items.len() > 0 {
        let rest = items.drop_last();
        lemma_filter_keeps_apart(rest, keep, apart);
        let kept = rest.filter(keep);
        let all = items.filter(keep);
        assert(all =~= if keep(items.last()) {
            kept.push(items.last())
        } else {
            kept
        });
        assert forall|i: int| 0 <= i < all.len() implies keep(#[trigger] all[i])
            && items.contains(all[i]) by {
            if i < kept.len() {
                assert(all[i] == kept[i]);
                let j = choose|j: int| 0 <= j < rest.len() && rest[j] == kept[i];
                assert(items[j] == all[i]);
            } else {
                assert(items[items.len() - 1] == all[i]);
            }
        }
        if pairwise(items, apart) {
            assert forall|i: int, j: int| 0 <= i < j < rest.len() implies apart(
                #[trigger] rest[i],
                #[trigger] rest[j],
            ) by {
                assert(apart(items[i], items[j]));
            }
            assert forall|i: int, j: int| 0 <= i < j < all.len() implies apart(
                #[trigger] all[i],
                #[trigger] all[j],
            ) by {
                assert(all[i] == kept[i]);
                if j < kept.len() {
                    assert(all[j] == kept[j]);
                } else {
                    let k = choose|k: int| 0 <= k < rest.len() && rest[k] == kept[i];
                    assert(apart(items[k], items[items.len() - 1]));
                }
            }
        }
    }
}

/// What is found at an address has that address, and a service is found there only where no
/// workload has the address. Nothing is found only where nothing has the address.
pub proof fn lemma_found_has_the_address(state: ProxyState, addr: NetworkAddress)
    ensures
        match state.at_address(addr) {
            Some(Address::Workload(w)) => state.workloads@.contains(w) && w.owns(addr),
            Some(Address::Service(s)) => {
                &&& state.services@.contains(s) && s.owns(addr)
                &&& forall|i: int|
                    0 <= i < state.workloads@.len() ==> !(#[trigger] state.workloads@[i]).owns(addr)
            },
            None => {
                &&& forall|i: int|
                    0 <= i < state.workloads@.len() ==> !(#[trigger] state.workloads@[i]).owns(addr)
                &&& forall|i: int|
                    0 <= i < state.services@.len() ==> !(#[trigger] state.services@[i]).owns(addr)
            },
        },
{
    lemma_latest(state.workloads@, |w: Arc<Workload>| w.owns(addr));
    lemma_latest(state.services@, |s: Arc<Service>| s.owns(addr));
}

/// A workload that was just inserted is found at each of its addresses, and an address that
/// neither it nor the workload that it replaced has leads where it led before.
pub proof fn lemma_inserted_workload_is_found(
    before: WorkloadStore,
    after: WorkloadStore,
    workload: Arc<Workload>,
    addr: NetworkAddress,
)
    requires
        after@ == other_workloads(before@, workload.uid@).push(workload),
    ensures
        workload.owns(addr) ==> after.at_address(addr) == Some(workload),
        !workload.owns(addr) && !replaced_workload_owns(before@, workload.uid@, addr)
            ==> after.at_address(addr) == before.at_address(addr),
{
    assert(after@.drop_last() =~= other_workloads(before@, workload.uid@));
    let fits = |w: Arc<Workload>| w.owns(addr);
    if !workload.owns(addr) && !replaced_workload_owns(before@, workload.uid@, addr) {
        lemma_latest_filter(before@, |w: Arc<Workload>| w.uid@ != workload.uid@, fits);
    }
}

/// Whether a workload with this uid has this address.
pub open spec fn replaced_workload_owns(
    workloads: Seq<Arc<Workload>>,
    uid: Seq<char>,
    addr: NetworkAddress,
) -> bool {
    exists|i: int|
        0 <= i < workloads.len() && (#[trigger] workloads[i]).uid@ == uid && workloads[i].owns(addr)
}

/// Whether a service with the names of `service` has this address.
pub open spec fn replaced_service_owns(
    services: Seq<Arc<Service>>,
    service: &Service,
    addr: NetworkAddress,
) -> bool {
    exists|i: int|
        0 <= i < services.len() && (#[trigger] services[i]).namespace@ == service.namespace@
            && services[i].hostname@ == service.hostname@ && services[i].owns(addr)
}

/// A service that was just inserted is found at each of its addresses and under its name.
/// Another name leads where it led before, and so does an address that neither it nor the
/// service that it replaced has.
pub proof fn lemma_inserted_service_is_found(
    before: ServiceStore,
    after: ServiceStore,
    service: Arc<Service>,
    addr: NetworkAddress,
    name: NamespacedHostname,
)
    requires
        after@ == other_services(before@, *service).push(service),
    ensures
        service.owns(addr) ==> after.at_vip(addr) == Some(service),
        !service.owns(addr) && !replaced_service_owns(before@, &service, addr) ==> after.at_vip(
            addr,
        ) == before.at_vip(addr),
        service.is_named(name) ==> after.at_name(name) == Some(service),
        !service.is_named(name) ==> after.at_name(name) == before.at_name(name),
{
    assert(after@.drop_last() =~= other_services(before@, *service));
    let keep = |s: Arc<Service>|
        s.namespace@ != service.namespace@ || s.hostname@ != service.hostname@;
    if !service.owns(addr) && !replaced_service_owns(before@, &service, addr) {
        lemma_latest_filter(before@, keep, |s: Arc<Service>| s.owns(addr));
    }
    if !service.is_named(name) {
        lemma_latest_filter(before@, keep, |s: Arc<Service>| s.is_named(name));
    }
}

} // verus!
