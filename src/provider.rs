//! The capability surface of a verbs provider backed by a driver. Contracts
//! speak of the provider's virtual context and of the abstract state of the
//! driver it delegates to.
use vstd::prelude::*;
use crate::device::DeviceState;
use crate::device::MrRecord;
use crate::device::poll_split;
use crate::discovery::DiscoveryError;
use crate::discovery::HostDevice;
use crate::discovery::discover_result;
use crate::verbs::ContextRef;
use crate::verbs::Cq;
use crate::verbs::DeviceAttr;
use crate::verbs::Mr;
use crate::verbs::MrInfo;
use crate::verbs::ObjectHeader;
use crate::verbs::Pd;
use crate::verbs::PortAttr;
use crate::verbs::Qp;
use crate::verbs::QpAttr;
use crate::verbs::QpInitAttr;
use crate::verbs::RecvWr;
use crate::verbs::SendWr;
use crate::verbs::VerbsError;
use crate::verbs::Wc;

verus! {

/// A verbs provider. Objects it hands out are stamped with its virtual
/// context; every operation that the driver accepts or refuses returns the
/// driver's status unchanged, and every object that survives a call comes
/// back stamped exactly as it went in.
pub trait Provider: Sized {
    /// The virtual device's context, which objects handed to callers carry.
    spec fn virtual_ctx(&self) -> u64;

    /// The state of the driver the provider delegates to.
    spec fn driver(&self) -> DeviceState;

    spec fn wf(&self) -> bool;

    /// Process-wide bootstrap; calling it again does nothing.
    fn init() -> (r: Result<(), VerbsError>)
        ensures
            r is Ok,
    ;

    /// Discovers and opens the driver's device among `devices`.
    fn new(virtual_context: u64, devices: &Vec<HostDevice>) -> (r: Result<Self, DiscoveryError>)
        ensures
            match (r, discover_result(devices@)) {
                (Ok(p), Ok(s)) => p.wf() && p.virtual_ctx() == virtual_context && p.driver() == s,
                (Err(e), Err(f)) => e == f,
                _ => false,
            },
    ;

    fn alloc_pd(&mut self) -> (r: Result<Pd, VerbsError>)
        requires
            old(self).wf(),
        ensures
            final(self).wf(),
            final(self).virtual_ctx() == old(self).virtual_ctx(),
            final(self).driver() == old(self).driver().settle_create(
                true,
                old(self).driver().pd_added(),
            ),
            r is Ok <==> old(self).driver().create_status(true) == 0,
            r matches Ok(pd) ==> pd@ == (ObjectHeader {
                context: ContextRef::Virtual(old(self).virtual_ctx()),
                id: old(self).driver().next_id,
            }),
            r matches Err(e) ==> e == old(self).driver().create_status(true),
    ;

    /// Destroys `pd`; on failure hands it back, stamped as it came.
    fn dealloc_pd(&mut self, pd: Pd) -> (r: Result<(), (Pd, VerbsError)>)
        requires
            old(self).wf(),
        ensures
            final(self).wf(),
            final(self).virtual_ctx() == old(self).virtual_ctx(),
            final(self).driver() == old(self).driver().settle(
                old(self).driver().pds.contains(pd@.id),
                old(self).driver().pd_removed(pd@.id),
            ),
            r is Ok <==> old(self).driver().status(old(self).driver().pds.contains(pd@.id)) == 0,
            r matches Err((back, e)) ==> back@ == pd@ && e == old(self).driver().status(
                old(self).driver().pds.contains(pd@.id),
            ),
    ;

    fn create_cq(&mut self, cqe: u32) -> (r: Result<Cq, VerbsError>)
        requires
            old(self).wf(),
        ensures
            final(self).wf(),
            final(self).virtual_ctx() == old(self).virtual_ctx(),
            final(self).driver() == old(self).driver().settle_create(
                old(self).driver().cqe_valid(cqe),
                old(self).driver().cq_added(cqe),
            ),
            r is Ok <==> old(self).driver().create_status(old(self).driver().cqe_valid(cqe)) == 0,
            r matches Ok(cq) ==> cq@ == (ObjectHeader {
                context: ContextRef::Virtual(old(self).virtual_ctx()),
                id: old(self).driver().next_id,
            }) && cq.spec_info().cqe == cqe,
            r matches Err(e) ==> e == old(self).driver().create_status(
                old(self).driver().cqe_valid(cqe),
            ),
    ;

    /// Destroys `cq`; on failure hands it back, stamped as it came.
    fn destroy_cq(&mut self, cq: Cq) -> (r: Result<(), (Cq, VerbsError)>)
        requires
            old(self).wf(),
        ensures
            final(self).wf(),
            final(self).virtual_ctx() == old(self).virtual_ctx(),
            final(self).driver() == old(self).driver().settle(
                old(self).driver().cqs.contains_key(cq@.id),
                old(self).driver().cq_removed(cq@.id),
            ),
            r is Ok <==> old(self).driver().status(old(self).driver().cqs.contains_key(cq@.id))
                == 0,
            r matches Err((back, e)) ==> back@ == cq@ && back.spec_info() == cq.spec_info() && e
                == old(self).driver().status(old(self).driver().cqs.contains_key(cq@.id)),
    ;

    /// Creates a queue pair in `pd`; `pd` keeps its stamp.
    fn create_qp(&mut self, pd: &mut Pd, init: &QpInitAttr) -> (r: Result<Qp, VerbsError>)
        requires
            old(self).wf(),
        ensures
            final(self).wf(),
            final(self).virtual_ctx() == old(self).virtual_ctx(),
            final(pd)@ == old(pd)@,
            final(self).driver() == old(self).driver().settle_create(
                old(self).driver().qp_init_valid(old(self).driver().stamped(old(pd)@.id), *init),
                old(self).driver().qp_added(old(pd)@.id, *init),
            ),
            r is Ok <==> old(self).driver().create_status(
                old(self).driver().qp_init_valid(old(self).driver().stamped(old(pd)@.id), *init),
            ) == 0,
            r matches Ok(qp) ==> qp@ == (ObjectHeader {
                context: ContextRef::Virtual(old(self).virtual_ctx()),
                id: old(self).driver().next_id,
            }),
            r matches Err(e) ==> e == old(self).driver().create_status(
                old(self).driver().qp_init_valid(old(self).driver().stamped(old(pd)@.id), *init),
            ),
    ;

    /// Destroys `qp`; on failure hands it back, stamped as it came.
    fn destroy_qp(&mut self, qp: Qp) -> (r: Result<(), (Qp, VerbsError)>)
        requires
            old(self).wf(),
        ensures
            final(self).wf(),
            final(self).virtual_ctx() == old(self).virtual_ctx(),
            final(self).driver() == old(self).driver().settle(
                old(self).driver().qps.contains_key(qp@.id),
                old(self).driver().qp_removed(qp@.id),
            ),
            r is Ok <==> old(self).driver().status(old(self).driver().qps.contains_key(qp@.id))
                == 0,
            r matches Err((back, e)) ==> back@ == qp@ && e == old(self).driver().status(
                old(self).driver().qps.contains_key(qp@.id),
            ),
    ;

    /// Applies the fields of `attr` that `mask` selects; `qp` keeps its stamp.
    fn modify_qp(&mut self, qp: &mut Qp, attr: &QpAttr, mask: i32) -> (r: Result<(), VerbsError>)
        requires
            old(self).wf(),
        ensures
            final(self).wf(),
            final(self).virtual_ctx() == old(self).virtual_ctx(),
            final(qp)@ == old(qp)@,
            final(self).driver() == old(self).driver().settle(
                old(self).driver().qps.contains_key(old(qp)@.id),
                old(self).driver().qp_modified(old(qp)@.id, *attr, mask),
            ),
            r is Ok <==> old(self).driver().status(
                old(self).driver().qps.contains_key(old(qp)@.id),
            ) == 0,
            r matches Err(e) ==> e == old(self).driver().status(
                old(self).driver().qps.contains_key(old(qp)@.id),
            ),
    ;

    /// The current and the creation attributes of `qp`; `qp` keeps its stamp.
    fn query_qp(&mut self, qp: &mut Qp) -> (r: Result<(QpAttr, QpInitAttr), VerbsError>)
        requires
            old(self).wf(),
        ensures
            final(self).wf(),
            final(self).virtual_ctx() == old(self).virtual_ctx(),
            final(qp)@ == old(qp)@,
            final(self).driver() == old(self).driver().settle(
                old(self).driver().qps.contains_key(old(qp)@.id),
                old(self).driver(),
            ),
            r is Ok <==> old(self).driver().status(
                old(self).driver().qps.contains_key(old(qp)@.id),
            ) == 0,
            r matches Ok(a) ==> a == (
                old(self).driver().qps[old(qp)@.id].attr,
                old(self).driver().qps[old(qp)@.id].init,
            ),
            r matches Err(e) ==> e == old(self).driver().status(
                old(self).driver().qps.contains_key(old(qp)@.id),
            ),
    ;

    /// Registers `length` bytes at `addr` in `pd`; `pd` keeps its stamp.
    fn reg_mr(&mut self, pd: &mut Pd, addr: u64, length: usize, access: i32) -> (r: Result<
        Mr,
        VerbsError,
    >)
        requires
            old(self).wf(),
        ensures
            final(self).wf(),
            final(self).virtual_ctx() == old(self).virtual_ctx(),
            final(pd)@ == old(pd)@,
            final(self).driver() == old(self).driver().settle_create(
                old(self).driver().pds.contains(old(pd)@.id) && length > 0,
                old(self).driver().mr_added(MrRecord { pd: old(pd)@.id, addr, length, access }),
            ),
            r is Ok <==> old(self).driver().create_status(
                old(self).driver().pds.contains(old(pd)@.id) && length > 0,
            ) == 0,
            r matches Ok(mr) ==> mr@ == (ObjectHeader {
                context: ContextRef::Virtual(old(self).virtual_ctx()),
                id: old(self).driver().next_id,
            }) && mr.spec_info() == (MrInfo { addr, length }),
            r matches Err(e) ==> e == old(self).driver().create_status(
                old(self).driver().pds.contains(old(pd)@.id) && length > 0,
            ),
    ;

    /// Deregisters `mr`; on failure hands it back, stamped as it came.
    fn dereg_mr(&mut self, mr: Mr) -> (r: Result<(), (Mr, VerbsError)>)
        requires
            old(self).wf(),
        ensures
            final(self).wf(),
            final(self).virtual_ctx() == old(self).virtual_ctx(),
            final(self).driver() == old(self).driver().settle(
                old(self).driver().mrs.contains_key(mr@.id),
                old(self).driver().mr_removed(mr@.id),
            ),
            r is Ok <==> old(self).driver().status(old(self).driver().mrs.contains_key(mr@.id))
                == 0,
            r matches Err((back, e)) ==> back@ == mr@ && back.spec_info() == mr.spec_info() && e
                == old(self).driver().status(old(self).driver().mrs.contains_key(mr@.id)),
    ;

    /// Posts send requests on `qp`; `qp` keeps its stamp.
    fn post_send(&mut self, qp: &mut Qp, wrs: &Vec<SendWr>, bad_wr: &mut Option<u64>) -> (r:
        Result<(), VerbsError>)
        requires
            old(self).wf(),
        ensures
            final(self).wf(),
            final(self).virtual_ctx() == old(self).virtual_ctx(),
            final(qp)@ == old(qp)@,
            final(self).driver() == old(self).driver().settle(
                old(self).driver().qps.contains_key(old(qp)@.id),
                old(self).driver().sends_posted(old(qp)@.id, wrs@),
            ),
            r is Ok <==> old(self).driver().status(
                old(self).driver().qps.contains_key(old(qp)@.id),
            ) == 0,
            r matches Err(e) ==> e == old(self).driver().status(
                old(self).driver().qps.contains_key(old(qp)@.id),
            ),
            *final(bad_wr) == (if r is Ok || wrs@.len() == 0 {
                None
            } else {
                Some(wrs@[0].wr_id)
            }),
    ;

    /// Posts receive requests on `qp`; `qp` keeps its stamp.
    fn post_recv(&mut self, qp: &mut Qp, wrs: &Vec<RecvWr>, bad_wr: &mut Option<u64>) -> (r:
        Result<(), VerbsError>)
        requires
            old(self).wf(),
        ensures
            final(self).wf(),
            final(self).virtual_ctx() == old(self).virtual_ctx(),
            final(qp)@ == old(qp)@,
            final(self).driver() == old(self).driver().settle(
                old(self).driver().qps.contains_key(old(qp)@.id),
                old(self).driver().recvs_posted(old(qp)@.id, wrs@),
            ),
            r is Ok <==> old(self).driver().status(
                old(self).driver().qps.contains_key(old(qp)@.id),
            ) == 0,
            r matches Err(e) ==> e == old(self).driver().status(
                old(self).driver().qps.contains_key(old(qp)@.id),
            ),
            *final(bad_wr) == (if r is Ok || wrs@.len() == 0 {
                None
            } else {
                Some(wrs@[0].wr_id)
            }),
    ;

    /// Takes at most `num_entries` of the oldest completions of `cq`; `cq`
    /// keeps its stamp.
    fn poll_cq(&mut self, cq: &mut Cq, num_entries: u32) -> (r: Result<Vec<Wc>, VerbsError>)
        requires
            old(self).wf(),
        ensures
            final(self).wf(),
            final(self).virtual_ctx() == old(self).virtual_ctx(),
            final(cq)@ == old(cq)@,
            final(cq).spec_info() == old(cq).spec_info(),
            final(self).driver() == old(self).driver().settle(
                old(self).driver().cqs.contains_key(old(cq)@.id),
                old(self).driver().polled(old(cq)@.id, num_entries as nat),
            ),
            r is Ok <==> old(self).driver().status(
                old(self).driver().cqs.contains_key(old(cq)@.id),
            ) == 0,
            r matches Ok(v) ==> v@ == poll_split(
                old(self).driver().completions,
                old(cq)@.id,
                num_entries as nat,
            ).0,
            r matches Err(e) ==> e == old(self).driver().status(
                old(self).driver().cqs.contains_key(old(cq)@.id),
            ),
    ;

    /// The driver's device attributes, as the driver reports them.
    fn query_device(&mut self) -> (r: Result<DeviceAttr, VerbsError>)
        requires
            old(self).wf(),
        ensures
            final(self).wf(),
            final(self).virtual_ctx() == old(self).virtual_ctx(),
            final(self).driver() == old(self).driver().settle(true, old(self).driver()),
            r is Ok <==> old(self).driver().status(true) == 0,
            r matches Ok(a) ==> a == old(self).driver().attr,
            r matches Err(e) ==> e == old(self).driver().status(true),
    ;

    /// Attributes of port `port_num`, counted from one, as the driver
    /// reports them.
    fn query_port(&mut self, port_num: u8) -> (r: Result<PortAttr, VerbsError>)
        requires
            old(self).wf(),
        ensures
            final(self).wf(),
            final(self).virtual_ctx() == old(self).virtual_ctx(),
            final(self).driver() == old(self).driver().settle(
                old(self).driver().port_valid(port_num),
                old(self).driver(),
            ),
            r is Ok <==> old(self).driver().status(old(self).driver().port_valid(port_num)) == 0,
            r matches Ok(a) ==> a == old(self).driver().ports[port_num - 1],
            r matches Err(e) ==> e == old(self).driver().status(
                old(self).driver().port_valid(port_num),
            ),
    ;
}

} // verus!
