//! Properties that hold across calls of a provider, stated over the driver
//! states that the operations' contracts describe.
use vstd::prelude::*;
use crate::device::DeviceState;
use crate::device::MrRecord;
use crate::discovery::DiscoveryError;
use crate::discovery::HostDevice;
use crate::discovery::discover_result;
use crate::discovery::first_match_from;
use crate::discovery::is_driver_device;
use crate::verbs::EINVAL;
use crate::verbs::QpInitAttr;

verus! {

/// Allocating a protection domain and then deallocating it is accepted, and
/// leaves the driver's accounting as it was before the allocation.
pub proof fn pd_lifecycle_balanced(before: DeviceState)
    requires
        before.wf(),
        before.create_status(true) == 0,
    ensures
        ({
            let id = before.next_id;
            let created = before.settle_create(true, before.pd_added());
            let valid = created.pds.contains(id);
            &&& created.status(valid) == 0
            &&& created.settle(valid, created.pd_removed(id)).accounting() == before.accounting()
        }),
{
    let id = before.next_id;
    let created = before.settle_create(true, before.pd_added());
    assert(created.pds.remove(id) =~= before.pds);
}

/// Creating a completion queue and then destroying it is accepted, and
/// leaves the driver's accounting as it was before the creation.
pub proof fn cq_lifecycle_balanced(before: DeviceState, cqe: u32)
    requires
        before.wf(),
        before.create_status(before.cqe_valid(cqe)) == 0,
    ensures
        ({
            let id = before.next_id;
            let created = before.settle_create(before.cqe_valid(cqe), before.cq_added(cqe));
            let valid = created.cqs.contains_key(id);
            &&& created.status(valid) == 0
            &&& created.settle(valid, created.cq_removed(id)).accounting() == before.accounting()
        }),
{
    let id = before.next_id;
    let created = before.settle_create(before.cqe_valid(cqe), before.cq_added(cqe));
    assert(created.cqs.remove(id) =~= before.cqs);
}

/// Creating a queue pair and then destroying it is accepted, and leaves the
/// driver's accounting as it was before the creation.
pub proof fn qp_lifecycle_balanced(before: DeviceState, pd: u32, init: QpInitAttr)
    requires
        before.wf(),
        before.create_status(before.qp_init_valid(before.stamped(pd), init)) == 0,
    ensures
        ({
            let id = before.next_id;
            let created = before.settle_create(
                before.qp_init_valid(before.stamped(pd), init),
                before.qp_added(pd, init),
            );
            let valid = created.qps.contains_key(id);
            &&& created.status(valid) == 0
            &&& created.settle(valid, created.qp_removed(id)).accounting() == before.accounting()
        }),
{
    let id = before.next_id;
    let created = before.settle_create(
        before.qp_init_valid(before.stamped(pd), init),
        before.qp_added(pd, init),
    );
    assert(created.qps.remove(id) =~= before.qps);
}

/// Registering a memory region and then deregistering it is accepted, and
/// leaves the driver's accounting as it was before the registration.
pub proof fn mr_lifecycle_balanced(before: DeviceState, rec: MrRecord)
    requires
        before.wf(),
        before.create_status(before.pds.contains(rec.pd) && rec.length > 0) == 0,
    ensures
        ({
            let id = before.next_id;
            let created = before.settle_create(
                before.pds.contains(rec.pd) && rec.length > 0,
                before.mr_added(rec),
            );
            let valid = created.mrs.contains_key(id);
            &&& created.status(valid) == 0
            &&& created.settle(valid, created.mr_removed(id)).accounting() == before.accounting()
        }),
{
    let id = before.next_id;
    let created = before.settle_create(
        before.pds.contains(rec.pd) && rec.length > 0,
        before.mr_added(rec),
    );
    assert(created.mrs.remove(id) =~= before.mrs);
}

/// Once a destroy of object `id` has succeeded, the driver no longer knows
/// `id`, and any later call naming it is refused as invalid.
pub proof fn destroyed_objects_are_refused(s: DeviceState, id: u32)
    requires
        s.wf(),
    ensures
        s.status(s.pds.contains(id)) == 0 ==> ({
            let after = s.settle(s.pds.contains(id), s.pd_removed(id));
            !after.pds.contains(id) && after.status(after.pds.contains(id)) == EINVAL
        }),
        s.status(s.cqs.contains_key(id)) == 0 ==> ({
            let after = s.settle(s.cqs.contains_key(id), s.cq_removed(id));
            !after.cqs.contains_key(id) && after.status(after.cqs.contains_key(id)) == EINVAL
        }),
        s.status(s.qps.contains_key(id)) == 0 ==> ({
            let after = s.settle(s.qps.contains_key(id), s.qp_removed(id));
            !after.qps.contains_key(id) && after.status(after.qps.contains_key(id)) == EINVAL
        }),
        s.status(s.mrs.contains_key(id)) == 0 ==> ({
            let after = s.settle(s.mrs.contains_key(id), s.mr_removed(id));
            !after.mrs.contains_key(id) && after.status(after.mrs.contains_key(id)) == EINVAL
        }),
{
}

proof fn no_match_from(devs: Seq<HostDevice>, k: int)
    requires
        0 <= k,
        forall|i: int| k <= i < devs.len() ==> !is_driver_device(#[trigger] devs[i]),
    ensures
        first_match_from(devs, k) is None,
    decreases devs.len() - k,
{
    if k < devs.len() {
        no_match_from(devs, k + 1);
    }
}

proof fn single_match_from(devs: Seq<HostDevice>, k: int, j: int)
    requires
        0 <= k <= j < devs.len(),
        is_driver_device(devs[j]),
        forall|i: int| k <= i < j ==> !is_driver_device(#[trigger] devs[i]),
    ensures
        first_match_from(devs, k) == Some(j),
    decreases j - k,
{
    if k < j {
        single_match_from(devs, k + 1, j);
    }
}

/// Discovery over devices none of whose names marks the driver reports
/// `NotFound`; it opens nothing.
pub proof fn discovery_without_match(devs: Seq<HostDevice>)
    requires
        forall|i: int| 0 <= i < devs.len() ==> !is_driver_device(#[trigger] devs[i]),
    ensures
        discover_result(devs) == Err::<DeviceState, DiscoveryError>(DiscoveryError::NotFound),
{
    no_match_from(devs, 0);
}

/// Discovery over devices of which exactly one marks the driver, and opens,
/// gives that device's driver state: device and port queries through the
/// provider then answer exactly what the device reports.
pub proof fn discovery_with_single_match(devs: Seq<HostDevice>, j: int)
    requires
        0 <= j < devs.len(),
        is_driver_device(devs[j]),
        forall|i: int| 0 <= i < devs.len() && i != j ==> !is_driver_device(#[trigger] devs[i]),
        devs[j].open_status == 0,
    ensures
        discover_result(devs) matches Ok(s) && s == DeviceState::opened(
            devs[j].context_id,
            devs[j].attr,
            devs[j].ports@,
        ) && s.status(true) == 0 && s.attr == devs[j].attr && s.ports == devs[j].ports@,
{
    single_match_from(devs, 0, j);
}

/// A call refused by a failure the driver reported leaves the driver as it
/// was, but for the failure having fired; the same call made again is then
/// accepted.
pub proof fn retry_after_failure(s: DeviceState, valid: bool, done: DeviceState)
    requires
        s.wf(),
        valid,
        s.armed is Some,
    ensures
        s.status(valid) != 0,
        s.settle(valid, done) == s.disarmed(),
        s.disarmed().wf(),
        s.disarmed().status(valid) == 0,
{
}

} // verus!
