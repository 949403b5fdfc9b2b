//! What the stores hold after an insertion, and what is found in them, field by field.

use std::sync::Arc;

use vstd::prelude::*;

use crate::addr::NetworkAddress;
use crate::state::{
    distinct_names, distinct_uids, latest, lemma_filter_keeps_apart, other_services,
    other_workloads, pairwise, Address, Destination, Endpoint, NamespacedHostname, ProxyState,
    Service, ServiceStore, Workload, WorkloadStore,
};

verus! {

/// The last element that fits is found.
proof fn lemma_latest_at<T>(items: Seq<T>, fits: spec_fn(T) -> bool, i: int)
    requires
        0 <= i < items.len(),
        fits(items[i]),
        forall|j: int| i < j < items.len() ==> !fits(#[trigger] items[j]),
    ensures
        latest(items, fits) == Some(items[i]),
    decreases items.len(),
{
    if i < items.len() - 1 {
        let rest = items.drop_last();
        assert forall|j: int| i < j < rest.len() implies !fits(#[trigger] rest[j]) by {
            assert(rest[j] == items[j]);
        }
        assert(!fits(items[items.len() - 1]));
        lemma_latest_at(rest, fits, i);
    }
}

/// Nothing is found where nothing fits.
proof fn lemma_latest_of_none<T>(items: Seq<T>, fits: spec_fn(T) -> bool)
    requires
        forall|j: int| 0 <= j < items.len() ==> !fits(#[trigger] items[j]),
    ensures
        latest(items, fits) is None,
    decreases items.len(),
{
    if items.len() > 0 {
        let rest = items.drop_last();
        assert forall|j: int| 0 <= j < rest.len() implies !fits(#[trigger] rest[j]) by {
            assert(rest[j] == items[j]);
        }
        assert(!fits(items[items.len() - 1]));
        lemma_latest_of_none(rest, fits);
    }
}

/// An address leads to the workload that has it: to the one that was inserted last, where several
/// have it. A workload has an address where it is on that network and lists that IP address.
pub proof fn lemma_address_leads_to_workload(state: ProxyState, addr: NetworkAddress, i: int)
    requires
        0 <= i < state.workloads@.len(),
        state.workloads@[i].network@ == addr.network@,
        state.workloads@[i].workload_ips@.contains(addr.address),
        forall|j: int|
            i < j < state.workloads@.len() ==> (#[trigger] state.workloads@[j]).network@
                != addr.network@ || !state.workloads@[j].workload_ips@.contains(addr.address),
    ensures
        state.workloads.at_address(addr) == Some(state.workloads@[i]),
        state.at_address(addr) == Some(Address::Workload(state.workloads@[i])),
        state.at_destination(Destination::Address(addr)) == Some(
            Address::Workload(state.workloads@[i]),
        ),
{
    lemma_latest_at(state.workloads@, |w: Arc<Workload>| w.owns(addr), i);
}

/// An address that no workload has leads to the service that lists it: to the one that was
/// inserted last, where several list it.
pub proof fn lemma_address_leads_to_service(
    state: ProxyState,
    addr: NetworkAddress,
    i: int,
    k: int,
)
    requires
        forall|j: int|
            0 <= j < state.workloads@.len() ==> (#[trigger] state.workloads@[j]).network@
                != addr.network@ || !state.workloads@[j].workload_ips@.contains(addr.address),
        0 <= i < state.services@.len(),
        0 <= k < state.services@[i].vips@.len(),
        state.services@[i].vips@[k].network@ == addr.network@,
        state.services@[i].vips@[k].address == addr.address,
        forall|j: int, l: int|
            i < j < state.services@.len() && 0 <= l < state.services@[j].vips@.len() ==> (
            #[trigger] state.services@[j].vips@[l]).network@ != addr.network@
                || state.services@[j].vips@[l].address != addr.address,
    ensures
        state.workloads.at_address(addr) is None,
        state.services.at_vip(addr) == Some(state.services@[i]),
        state.at_address(addr) == Some(Address::Service(state.services@[i])),
        state.at_destination(Destination::Address(addr)) == Some(
            Address::Service(state.services@[i]),
        ),
{
    let fits = |s: Arc<Service>| s.owns(addr);
    lemma_latest_of_none(state.workloads@, |w: Arc<Workload>| w.owns(addr));
    assert(state.services@[i].vips@[k].same(addr));
    assert forall|j: int| i < j < state.services@.len() implies !fits(
        #[trigger] state.services@[j],
    ) by {
        let vips = state.services@[j].vips@;
        assert forall|l: int| 0 <= l < vips.len() implies !(#[trigger] vips[l]).same(addr) by {
            assert(state.services@[j].vips@[l] == vips[l]);
        }
    }
    lemma_latest_at(state.services@, fits, i);
}

/// An address that no workload has and no service lists leads nowhere.
pub proof fn lemma_address_leads_nowhere(state: ProxyState, addr: NetworkAddress)
    requires
        forall|j: int|
            0 <= j < state.workloads@.len() ==> (#[trigger] state.workloads@[j]).network@
                != addr.network@ || !state.workloads@[j].workload_ips@.contains(addr.address),
        forall|j: int, l: int|
            0 <= j < state.services@.len() && 0 <= l < state.services@[j].vips@.len() ==> (
            #[trigger] state.services@[j].vips@[l]).network@ != addr.network@
                || state.services@[j].vips@[l].address != addr.address,
    ensures
        state.workloads.at_address(addr) is None,
        state.services.at_vip(addr) is None,
        state.at_address(addr) is None,
        state.at_destination(Destination::Address(addr)) is None,
{
    let fits = |s: Arc<Service>| s.owns(addr);
    lemma_latest_of_none(state.workloads@, |w: Arc<Workload>| w.owns(addr));
    assert forall|j: int| 0 <= j < state.services@.len() implies !fits(
        #[trigger] state.services@[j],
    ) by {
        let vips = state.services@[j].vips@;
        assert forall|l: int| 0 <= l < vips.len() implies !(#[trigger] vips[l]).same(addr) by {
            assert(state.services@[j].vips@[l] == vips[l]);
        }
    }
    lemma_latest_of_none(state.services@, fits);
}

/// A hostname leads to the service that has it in that namespace, before any workload.
pub proof fn lemma_hostname_leads_to_service(state: ProxyState, name: NamespacedHostname, i: int)
    requires
        0 <= i < state.services@.len(),
        state.services@[i].namespace@ == name.namespace@,
        state.services@[i].hostname@ == name.hostname@,
        forall|j: int|
            i < j < state.services@.len() ==> (#[trigger] state.services@[j]).namespace@
                != name.namespace@ || state.services@[j].hostname@ != name.hostname@,
    ensures
        state.services.at_name(name) == Some(state.services@[i]),
        state.at_hostname(name) == Some(Address::Service(state.services@[i])),
        state.at_destination(Destination::Hostname(name)) == Some(
            Address::Service(state.services@[i]),
        ),
{
    lemma_latest_at(state.services@, |s: Arc<Service>| s.is_named(name), i);
}

/// A hostname that no service has in that namespace leads to the workload that has it, in
/// whatever namespace. The empty hostname leads to no workload.
pub proof fn lemma_hostname_leads_to_workload(state: ProxyState, name: NamespacedHostname, i: int)
    requires
        forall|j: int|
            0 <= j < state.services@.len() ==> (#[trigger] state.services@[j]).namespace@
                != name.namespace@ || state.services@[j].hostname@ != name.hostname@,
        0 <= i < state.workloads@.len(),
        name.hostname@.len() > 0,
        state.workloads@[i].hostname@ == name.hostname@,
        forall|j: int|
            i < j < state.workloads@.len() ==> (#[trigger] state.workloads@[j]).hostname@
                != name.hostname@,
    ensures
        state.services.at_name(name) is None,
        state.workloads.at_hostname(name.hostname@) == Some(state.workloads@[i]),
        state.at_hostname(name) == Some(Address::Workload(state.workloads@[i])),
        state.at_destination(Destination::Hostname(name)) == Some(
            Address::Workload(state.workloads@[i]),
        ),
{
    lemma_latest_of_none(state.services@, |s: Arc<Service>| s.is_named(name));
    lemma_latest_at(
        state.workloads@,
        |w: Arc<Workload>| w.hostname@.len() > 0 && w.hostname@ == name.hostname@,
        i,
    );
}

/// A hostname that no service has in that namespace and that is empty, or that no workload has,
/// leads nowhere.
pub proof fn lemma_hostname_leads_nowhere(state: ProxyState, name: NamespacedHostname)
    requires
        forall|j: int|
            0 <= j < state.services@.len() ==> (#[trigger] state.services@[j]).namespace@
                != name.namespace@ || state.services@[j].hostname@ != name.hostname@,
        name.hostname@.len() == 0 || forall|j: int|
            0 <= j < state.workloads@.len() ==> (#[trigger] state.workloads@[j]).hostname@
                != name.hostname@,
    ensures
        state.services.at_name(name) is None,
        state.workloads.at_hostname(name.hostname@) is None,
        state.at_hostname(name) is None,
        state.at_destination(Destination::Hostname(name)) is None,
{
    lemma_latest_of_none(state.services@, |s: Arc<Service>| s.is_named(name));
    lemma_latest_of_none(
        state.workloads@,
        |w: Arc<Workload>| w.hostname@.len() > 0 && w.hostname@ == name.hostname@,
    );
}

/// Whether a workload is behind a service is decided by the uids of the service's endpoints, all
/// of them, and by nothing else.
pub proof fn lemma_endpoint_puts_workload_behind(service: Service, workload: Workload, k: int)
    ensures
        0 <= k < service.endpoints@.len() && service.endpoints@[k].workload_uid@ == workload.uid@
            ==> service.has_endpoint(workload),
        (forall|l: int|
            0 <= l < service.endpoints@.len() ==> (#[trigger] service.endpoints@[l]).workload_uid@
                != workload.uid@) ==> !service.has_endpoint(workload),
{
}

/// A service that gains an endpoint keeps every workload behind it, and gains the endpoint's
/// workload and no other.
pub proof fn lemma_more_endpoints_keep_workloads(
    before: Service,
    after: Service,
    endpoint: Endpoint,
    workload: Workload,
)
    requires
        after.endpoints@ == before.endpoints@.push(endpoint),
    ensures
        after.has_endpoint(workload) <==> before.has_endpoint(workload) || endpoint.workload_uid@
            == workload.uid@,
{
    let n = before.endpoints@.len() as int;
    assert(after.endpoints@[n] == endpoint);
    if before.has_endpoint(workload) {
        let l = choose|l: int|
            0 <= l < n && (#[trigger] before.endpoints@[l]).workload_uid@ == workload.uid@;
        assert(after.endpoints@[l] == before.endpoints@[l]);
    }
    if after.has_endpoint(workload) {
        let l = choose|l: int|
            0 <= l < n + 1 && (#[trigger] after.endpoints@[l]).workload_uid@ == workload.uid@;
        if l < n {
            assert(before.endpoints@[l] == after.endpoints@[l]);
        }
    }
}

/// Filtering one more element keeps it where it fits, and only there.
proof fn lemma_filter_push<T>(items: Seq<T>, item: T, keep: spec_fn(T) -> bool)
    ensures
        items.push(item).filter(keep) == if keep(item) {
            items.filter(keep).push(item)
        } else {
            items.filter(keep)
        },
        Seq::<T>::empty().filter(keep) == Seq::<T>::empty(),
{
    reveal(Seq::filter);
    assert(items.push(item).drop_last() =~= items);
    assert(Seq::<T>::empty().filter(keep) =~= Seq::<T>::empty());
}

/// The services that a workload is behind, service by service: one more service is listed, after
/// the others, exactly where one of its endpoints has the workload's uid.
pub proof fn lemma_one_more_service_of_workload(
    before: ServiceStore,
    after: ServiceStore,
    service: Arc<Service>,
    workload: Workload,
)
    requires
        after@ == before@.push(service),
    ensures
        before@.len() == 0 ==> before.of_workload(workload).len() == 0,
        (exists|k: int|
            0 <= k < service.endpoints@.len() && (#[trigger] service.endpoints@[k]).workload_uid@
                == workload.uid@) ==> after.of_workload(workload) == before.of_workload(
            workload,
        ).push(service),
        (forall|k: int|
            0 <= k < service.endpoints@.len() ==> (#[trigger] service.endpoints@[k]).workload_uid@
                != workload.uid@) ==> after.of_workload(workload) == before.of_workload(workload),
{
    let behind = |s: Arc<Service>| s.has_endpoint(workload);
    lemma_filter_push(before@, service, behind);
    if before@.len() == 0 {
        assert(before@ =~= Seq::<Arc<Service>>::empty());
    }
}

/// A service is listed for a workload where any of its endpoints has the workload's uid. Each
/// service that is listed is known and has such an endpoint.
pub proof fn lemma_services_of_workload(
    store: ServiceStore,
    workload: Workload,
    i: int,
    k: int,
    l: int,
)
    ensures
        0 <= i < store@.len() && 0 <= k < store@[i].endpoints@.len()
            && store@[i].endpoints@[k].workload_uid@ == workload.uid@ ==> store.of_workload(
            workload,
        ).contains(store@[i]),
        0 <= l < store.of_workload(workload).len() ==> {
            &&& store@.contains(store.of_workload(workload)[l])
            &&& exists|e: int|
                0 <= e < store.of_workload(workload)[l].endpoints@.len() && (
                #[trigger] store.of_workload(workload)[l].endpoints@[e]).workload_uid@
                    == workload.uid@
        },
{
    let behind = |s: Arc<Service>| s.has_endpoint(workload);
    lemma_filter_members(store@, behind);
    let listed = store.of_workload(workload);
    assert(listed == store@.filter(behind));
    if 0 <= i < store@.len() && 0 <= k < store@[i].endpoints@.len()
        && store@[i].endpoints@[k].workload_uid@ == workload.uid@ {
        assert(behind(store@[i]));
    }
    if 0 <= l < listed.len() {
        assert(behind(listed[l]));
        let e = choose|e: int|
            0 <= e < listed[l].endpoints@.len() && (#[trigger] listed[l].endpoints@[e]).workload_uid@
                == workload.uid@;
        assert(store.of_workload(workload)[l].endpoints@[e].workload_uid@ == workload.uid@);
    }
}

/// What a filter keeps is exactly what fits.
proof fn lemma_filter_members<T>(items: Seq<T>, keep: spec_fn(T) -> bool)
    ensures
        forall|i: int|
            0 <= i < items.len() && keep(#[trigger] items[i]) ==> items.filter(keep).contains(
                items[i],
            ),
        forall|i: int|
            0 <= i < items.filter(keep).len() ==> keep(#[trigger] items.filter(keep)[i])
                && items.contains(items.filter(keep)[i]),
    decreases items.len(),
{
    reveal(Seq::filter);
    if items.len() > 0 {
        let rest = items.drop_last();
        lemma_filter_members(rest, keep);
        let kept = rest.filter(keep);
        let all = items.filter(keep);
        assert(all =~= if keep(items.last()) {
            kept.push(items.last())
        } else {
            kept
        });
        assert forall|i: int| 0 <= i < items.len() && keep(#[trigger] items[i]) implies all.contains(
            items[i],
        ) by {
            if i < rest.len() {
                assert(rest[i] == items[i]);
                assert(kept.contains(rest[i]));
                let j = choose|j: int| 0 <= j < kept.len() && kept[j] == rest[i];
                assert(all[j] == items[i]);
            } else {
                assert(all[all.len() - 1] == items[i]);
            }
        }
        assert forall|i: int| 0 <= i < all.len() implies keep(#[trigger] all[i])
            && items.contains(all[i]) by {
            if i < kept.len() {
                assert(all[i] == kept[i]);
                let j = choose|j: int| 0 <= j < rest.len() && rest[j] == kept[i];
                assert(items[j] == all[i]);
            } else {
                assert(items[items.len() - 1] == all[i]);
            }
        }
    }
}

/// What an insertion leaves of the workloads, workload by workload: each keeps its place but the
/// one that has the inserted uid.
pub proof fn lemma_other_workloads_stay(
    workloads: Seq<Arc<Workload>>,
    workload: Arc<Workload>,
    inserted: Workload,
)
    ensures
        other_workloads(Seq::empty(), inserted.uid@).len() == 0,
        workload.uid@ != inserted.uid@ ==> other_workloads(workloads.push(workload), inserted.uid@) == other_workloads(
            workloads,
            inserted.uid@,
        ).push(workload),
        workload.uid@ == inserted.uid@ ==> other_workloads(workloads.push(workload), inserted.uid@) == other_workloads(
            workloads,
            inserted.uid@,
        ),
{
    lemma_filter_push(workloads, workload, |w: Arc<Workload>| w.uid@ != inserted.uid@);
}

/// What an insertion leaves of the services, service by service: each keeps its place but the one
/// that has both the namespace and the hostname of the inserted service.
pub proof fn lemma_other_services_stay(
    services: Seq<Arc<Service>>,
    service: Arc<Service>,
    inserted: Service,
)
    ensures
        other_services(Seq::empty(), inserted).len() == 0,
        service.namespace@ != inserted.namespace@ || service.hostname@ != inserted.hostname@
            ==> other_services(services.push(service), inserted) == other_services(
            services,
            inserted,
        ).push(service),
        service.namespace@ == inserted.namespace@ && service.hostname@ == inserted.hostname@
            ==> other_services(services.push(service), inserted) == other_services(
            services,
            inserted,
        ),
{
    lemma_filter_push(
        services,
        service,
        |s: Arc<Service>| s.namespace@ != inserted.namespace@ || s.hostname@ != inserted.hostname@,
    );
}

/// After an insertion the inserted workload is there, and no two workloads share a uid, where none
/// did before.
pub proof fn lemma_uids_stay_distinct(
    before: WorkloadStore,
    after: WorkloadStore,
    workload: Arc<Workload>,
)
    requires
        forall|i: int, j: int|
            0 <= i < j < before@.len() ==> (#[trigger] before@[i]).uid@ != (
            #[trigger] before@[j]).uid@,
        after@ == other_workloads(before@, workload.uid@).push(workload),
    ensures
        distinct_uids(before@),
        after@.last() == workload,
        forall|i: int, j: int|
            0 <= i < j < after@.len() ==> (#[trigger] after@[i]).uid@ != (
            #[trigger] after@[j]).uid@,
{
    let apart = |a: Arc<Workload>, b: Arc<Workload>| a.uid@ != b.uid@;
    let keep = |w: Arc<Workload>| w.uid@ != workload.uid@;
    let others = before@.filter(keep);
    assert(pairwise(before@, apart));
    lemma_filter_keeps_apart(before@, keep, apart);
    assert(others == other_workloads(before@, workload.uid@));
    assert forall|i: int, j: int| 0 <= i < j < after@.len() implies (#[trigger] after@[i]).uid@ != (
    #[trigger] after@[j]).uid@ by {
        assert(after@[i] == others[i]);
        if j < others.len() {
            assert(apart(others[i], others[j]));
        } else {
            assert(keep(others[i]));
        }
    }
}

/// After an insertion the inserted service is there, and no two services share both namespace and
/// hostname, where none did before.
pub proof fn lemma_names_stay_distinct(
    before: ServiceStore,
    after: ServiceStore,
    service: Arc<Service>,
)
    requires
        forall|i: int, j: int|
            0 <= i < j < before@.len() ==> (#[trigger] before@[i]).namespace@ != (
            #[trigger] before@[j]).namespace@ || before@[i].hostname@ != before@[j].hostname@,
        after@ == other_services(before@, *service).push(service),
    ensures
        distinct_names(before@),
        after@.last() == service,
        forall|i: int, j: int|
            0 <= i < j < after@.len() ==> (#[trigger] after@[i]).namespace@ != (
            #[trigger] after@[j]).namespace@ || after@[i].hostname@ != after@[j].hostname@,
{
    let apart = |a: Arc<Service>, b: Arc<Service>|
        a.namespace@ != b.namespace@ || a.hostname@ != b.hostname@;
    let keep = |s: Arc<Service>|
        s.namespace@ != service.namespace@ || s.hostname@ != service.hostname@;
    let others = before@.filter(keep);
    assert(pairwise(before@, apart));
    lemma_filter_keeps_apart(before@, keep, apart);
    assert(others == other_services(before@, *service));
    assert forall|i: int, j: int| 0 <= i < j < after@.len() implies (
    #[trigger] after@[i]).namespace@ != (#[trigger] after@[j]).namespace@ || after@[i].hostname@
        != after@[j].hostname@ by {
        assert(after@[i] == others[i]);
        if j < others.len() {
            assert(apart(others[i], others[j]));
        } else {
            assert(keep(others[i]));
        }
    }
}

/// What a store holds apart is apart in fact: no uid twice, and no namespace and hostname twice.
pub proof fn lemma_distinct_means_distinct(
    workloads: Seq<Arc<Workload>>,
    services: Seq<Arc<Service>>,
    i: int,
    j: int,
)
    ensures
        distinct_uids(workloads) && 0 <= i < workloads.len() && 0 <= j < workloads.len() && i != j
            ==> workloads[i].uid@ != workloads[j].uid@,
        distinct_names(services) && 0 <= i < services.len() && 0 <= j < services.len() && i != j
            ==> services[i].namespace@ != services[j].namespace@ || services[i].hostname@
            != services[j].hostname@,
{
}

} // verus!
