//! The provider that delegates to the soft RDMA driver ("rxe").
//!
//! Objects handed to callers carry the virtual context. Before each delegated
//! call the provider stamps every object the call takes with the driver's
//! context, since the driver refuses any other; after the call it restores
//! the saved stamp on every object that survives, whether the call succeeded
//! or not. An object that a successful destroy consumed is never touched
//! again.
use vstd::prelude::*;
use crate::device::DeviceContext;
use crate::device::DeviceState;
use crate::discovery::DiscoveryError;
use crate::discovery::HostDevice;
use crate::discovery::discover;
use crate::provider::Provider;
use crate::verbs::ContextRef;
use crate::verbs::Cq;
use crate::verbs::DeviceAttr;
use crate::verbs::Mr;
use crate::verbs::Pd;
use crate::verbs::PortAttr;
use crate::verbs::Qp;
use crate::verbs::QpAttr;
use crate::verbs::QpInitAttr;
use crate::verbs::RecvWr;
use crate::verbs::SendWr;
use crate::verbs::VerbsError;
use crate::verbs::Wc;

verus! {

/// A driver instance: the virtual context it presents and the driver context
/// it owns.
pub struct Rxe {
    virt: u64,
    dev: DeviceContext,
}

impl Rxe {
    /// The stamp the driver accepts.
    fn device_ref(&self) -> (r: ContextRef)
        ensures
            r == ContextRef::Device(self.dev@.context),
    {
        ContextRef::Device(self.dev.context_id())
    }

    /// The stamp callers' objects carry.
    fn virtual_ref(&self) -> (r: ContextRef)
        ensures
            r == ContextRef::Virtual(self.virt),
    {
        ContextRef::Virtual(self.virt)
    }

    /// The virtual device's context.
    pub fn virtual_context(&self) -> (r: u64)
        ensures
            r == self.virtual_ctx(),
    {
        self.virt
    }

    /// The identity of the driver context this instance owns.
    pub fn device_context(&self) -> (r: u64)
        ensures
            r == self.driver().context,
    {
        self.dev.context_id()
    }

    /// How many protection domains, completion queues, queue pairs and
    /// memory regions the driver holds live.
    pub fn resource_counts(&self) -> (r: (usize, usize, usize, usize))
        ensures
            r == (
                self.driver().pds.len() as usize,
                self.driver().cqs.len() as usize,
                self.driver().qps.len() as usize,
                self.driver().mrs.len() as usize,
            ),
    {
        self.dev.resource_counts()
    }

    /// Makes the driver fail its next accepted call with `status`.
    pub fn fail_next_call(&mut self, status: i32)
        requires
            old(self).wf(),
            status != 0,
        ensures
            final(self).wf(),
            final(self).virtual_ctx() == old(self).virtual_ctx(),
            final(self).driver() == (DeviceState { armed: Some(status), ..old(self).driver() }),
    {
        self.dev.arm_failure(status);
    }
}

impl Provider for Rxe {
    closed spec fn virtual_ctx(&self) -> u64 {
        self.virt
    }

    closed spec fn driver(&self) -> DeviceState {
        self.dev@
    }

    closed spec fn wf(&self) -> bool {
        self.dev@.wf()
    }

    fn init() -> (r: Result<(), VerbsError>) {
        Ok(())
    }

    fn new(virtual_context: u64, devices: &Vec<HostDevice>) -> (r: Result<Self, DiscoveryError>) {
        match discover(devices) {
            Ok(dev) => Ok(Rxe { virt: virtual_context, dev }),
            Err(e) => Err(e),
        }
    }

    fn alloc_pd(&mut self) -> (r: Result<Pd, VerbsError>) {
        let stamp = self.virtual_ref();
        match self.dev.alloc_pd() {
            Ok(pd) => {
                let mut pd = pd;
                pd.swap_context(stamp);
                Ok(pd)
            },
            Err(e) => Err(e),
        }
    }

    fn dealloc_pd(&mut self, pd: Pd) -> (r: Result<(), (Pd, VerbsError)>) {
        let mut pd = pd;
        let saved = pd.swap_context(self.device_ref());
        let rc = self.dev.dealloc_pd(&pd);
        if rc == 0 {
            Ok(())
        } else {
            pd.swap_context(saved);
            Err((pd, rc))
        }
    }

    fn create_cq(&mut self, cqe: u32) -> (r: Result<Cq, VerbsError>) {
        let stamp = self.virtual_ref();
        match self.dev.create_cq(cqe) {
            Ok(cq) => {
                let mut cq = cq;
                cq.swap_context(stamp);
                Ok(cq)
            },
            Err(e) => Err(e),
        }
    }

    fn destroy_cq(&mut self, cq: Cq) -> (r: Result<(), (Cq, VerbsError)>) {
        let mut cq = cq;
        let saved = cq.swap_context(self.device_ref());
        let rc = self.dev.destroy_cq(&cq);
        if rc == 0 {
            Ok(())
        } else {
            cq.swap_context(saved);
            Err((cq, rc))
        }
    }

    fn create_qp(&mut self, pd: &mut Pd, init: &QpInitAttr) -> (r: Result<Qp, VerbsError>) {
        let stamp = self.virtual_ref();
        let saved = pd.swap_context(self.device_ref());
        let r = self.dev.create_qp(pd, init);
        pd.swap_context(saved);
        match r {
            Ok(qp) => {
                let mut qp = qp;
                qp.swap_context(stamp);
                Ok(qp)
            },
            Err(e) => Err(e),
        }
    }

    fn destroy_qp(&mut self, qp: Qp) -> (r: Result<(), (Qp, VerbsError)>) {
        let mut qp = qp;
        let saved = qp.swap_context(self.device_ref());
        let rc = self.dev.destroy_qp(&qp);
        if rc == 0 {
            Ok(())
        } else {
            qp.swap_context(saved);
            Err((qp, rc))
        }
    }

    fn modify_qp(&mut self, qp: &mut Qp, attr: &QpAttr, mask: i32) -> (r: Result<(), VerbsError>) {
        let saved = qp.swap_context(self.device_ref());
        let rc = self.dev.modify_qp(qp, attr, mask);
        qp.swap_context(saved);
        if rc == 0 {
            Ok(())
        } else {
            Err(rc)
        }
    }

    fn query_qp(&mut self, qp: &mut Qp) -> (r: Result<(QpAttr, QpInitAttr), VerbsError>) {
        let saved = qp.swap_context(self.device_ref());
        let r = self.dev.query_qp(qp);
        qp.swap_context(saved);
        r
    }

    fn reg_mr(&mut self, pd: &mut Pd, addr: u64, length: usize, access: i32) -> (r: Result<
        Mr,
        VerbsError,
    >) {
        let stamp = self.virtual_ref();
        let saved = pd.swap_context(self.device_ref());
        let r = self.dev.reg_mr(pd, addr, length, access);
        pd.swap_context(saved);
        match r {
            Ok(mr) => {
                let mut mr = mr;
                mr.swap_context(stamp);
                Ok(mr)
            },
            Err(e) => Err(e),
        }
    }

    fn dereg_mr(&mut self, mr: Mr) -> (r: Result<(), (Mr, VerbsError)>) {
        let mut mr = mr;
        let saved = mr.swap_context(self.device_ref());
        let rc = self.dev.dereg_mr(&mr);
        if rc == 0 {
            Ok(())
        } else {
            mr.swap_context(saved);
            Err((mr, rc))
        }
    }

    fn post_send(&mut self, qp: &mut Qp, wrs: &Vec<SendWr>, bad_wr: &mut Option<u64>) -> (r:
        Result<(), VerbsError>) {
        let saved = qp.swap_context(self.device_ref());
        let rc = self.dev.post_send(qp, wrs, bad_wr);
        qp.swap_context(saved);
        if rc == 0 {
            Ok(())
        } else {
            Err(rc)
        }
    }

    fn post_recv(&mut self, qp: &mut Qp, wrs: &Vec<RecvWr>, bad_wr: &mut Option<u64>) -> (r:
        Result<(), VerbsError>) {
        let saved = qp.swap_context(self.device_ref());
        let rc = self.dev.post_recv(qp, wrs, bad_wr);
        qp.swap_context(saved);
        if rc == 0 {
            Ok(())
        } else {
            Err(rc)
        }
    }

    fn poll_cq(&mut self, cq: &mut Cq, num_entries: u32) -> (r: Result<Vec<Wc>, VerbsError>) {
        let saved = cq.swap_context(self.device_ref());
        let r = self.dev.poll_cq(cq, num_entries);
        cq.swap_context(saved);
        r
    }

    fn query_device(&mut self) -> (r: Result<DeviceAttr, VerbsError>) {
        self.dev.query_device()
    }

    fn query_port(&mut self, port_num: u8) -> (r: Result<PortAttr, VerbsError>) {
        self.dev.query_port(port_num)
    }
}

} // verus!
