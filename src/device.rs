//! The soft RDMA driver that the provider delegates to, as an in-memory model
//! of its verbs surface: it owns one open context, accepts only objects
//! stamped with that context, and keeps the accounting of live resources.
use vstd::prelude::*;
use std::collections::HashMap;
use std::collections::HashSet;
use crate::verbs::ContextRef;
use crate::verbs::Cq;
use crate::verbs::CqInfo;
use crate::verbs::DeviceAttr;
use crate::verbs::EINVAL;
use crate::verbs::ENOMEM;
use crate::verbs::Mr;
use crate::verbs::MrInfo;
use crate::verbs::ObjectHeader;
use crate::verbs::Pd;
use crate::verbs::PdInfo;
use crate::verbs::PortAttr;
use crate::verbs::Qp;
use crate::verbs::QpInfo;
use crate::verbs::QpAttr;
use crate::verbs::QpInitAttr;
use crate::verbs::RecvWr;
use crate::verbs::SendWr;
use crate::verbs::Wc;
use crate::verbs::Resource;
use crate::verbs::apply_qp_attr;
use crate::verbs::merge_qp_attr;

verus! {

broadcast use vstd::std_specs::hash::group_hash_axioms;

/// What the driver keeps of a live queue pair.
#[derive(PartialEq, Eq, Structural, Clone, Copy, Debug)]
pub struct QpRecord {
    pub pd: u32,
    pub init: QpInitAttr,
    pub attr: QpAttr,
}

/// What the driver keeps of a live memory region.
#[derive(PartialEq, Eq, Structural, Clone, Copy, Debug)]
pub struct MrRecord {
    pub pd: u32,
    pub addr: u64,
    pub length: usize,
    pub access: i32,
}

/// A completion waiting in completion queue `cq`.
#[derive(PartialEq, Eq, Structural, Clone, Copy, Debug)]
pub struct Completion {
    pub cq: u32,
    pub wc: Wc,
}

/// A receive request posted on queue pair `qp`.
#[derive(PartialEq, Eq, Structural, Clone, Copy, Debug)]
pub struct PostedRecv {
    pub qp: u32,
    pub wr: RecvWr,
}

/// The completion the driver reports for send request `wr` on queue pair
/// `qp`, whose send completions go to `cq`.
pub open spec fn send_completion(cq: u32, qp: u32, wr: SendWr) -> Completion {
    Completion {
        cq,
        wc: Wc { wr_id: wr.wr_id, status: 0, opcode: wr.opcode, byte_len: wr.length, qp_num: qp },
    }
}

/// Completions for a list of send requests, in posting order.
pub open spec fn send_completions(cq: u32, qp: u32, wrs: Seq<SendWr>) -> Seq<Completion> {
    wrs.map_values(|wr: SendWr| send_completion(cq, qp, wr))
}

/// Receive requests as posted on queue pair `qp`, in posting order.
pub open spec fn posted_recvs(qp: u32, wrs: Seq<RecvWr>) -> Seq<PostedRecv> {
    wrs.map_values(|wr: RecvWr| PostedRecv { qp, wr })
}

/// Splits the pending completions `s` into what a poll of at most `n`
/// entries on `cq` returns (the oldest entries of `cq`, oldest first) and
/// what stays pending, in order.
pub open spec fn poll_split(s: Seq<Completion>, cq: u32, n: nat) -> (Seq<Wc>, Seq<Completion>)
    decreases s.len(),
{
    if s.len() == 0 {
        (Seq::empty(), s)
    } else if s[0].cq == cq && n > 0 {
        let tail = poll_split(s.drop_first(), cq, (n - 1) as nat);
        (seq![s[0].wc] + tail.0, tail.1)
    } else {
        let tail = poll_split(s.drop_first(), cq, n);
        (tail.0, seq![s[0]] + tail.1)
    }
}

/// The abstract state of an open driver context.
pub struct DeviceState {
    /// Identity of the open context; objects must carry `Device(context)`.
    pub context: u64,
    pub attr: DeviceAttr,
    pub ports: Seq<PortAttr>,
    pub pds: Set<u32>,
    /// Live completion queues and their capacity.
    pub cqs: Map<u32, u32>,
    pub qps: Map<u32, QpRecord>,
    pub mrs: Map<u32, MrRecord>,
    /// Key that the next created object receives.
    pub next_id: u32,
    /// A failure status the next accepted call returns instead of running.
    pub armed: Option<i32>,
    /// Completions not yet polled, oldest first.
    pub completions: Seq<Completion>,
    /// Receive requests waiting for incoming data, oldest first.
    pub recvs: Seq<PostedRecv>,
}

impl DeviceState {
    /// The state of a context just opened on a device.
    pub open spec fn opened(context: u64, attr: DeviceAttr, ports: Seq<PortAttr>) -> DeviceState {
        DeviceState {
            context,
            attr,
            ports,
            pds: Set::empty(),
            cqs: Map::empty(),
            qps: Map::empty(),
            mrs: Map::empty(),
            next_id: 1,
            armed: None,
            completions: Seq::empty(),
            recvs: Seq::empty(),
        }
    }

    /// The driver's resource accounting: the keys of the live protection
    /// domains, completion queues, queue pairs and memory regions.
    pub open spec fn accounting(self) -> (Set<u32>, Set<u32>, Set<u32>, Set<u32>) {
        (self.pds, self.cqs.dom(), self.qps.dom(), self.mrs.dom())
    }

    /// The header of object `id` once it is stamped with this context.
    pub open spec fn stamped(self, id: u32) -> ObjectHeader {
        ObjectHeader { context: ContextRef::Device(self.context), id }
    }

    /// Whether an object stamped with `c` is acceptable to this context.
    pub open spec fn owns(self, c: ContextRef) -> bool {
        c == ContextRef::Device(self.context)
    }

    /// Every key in use is below `next_id`, and an armed failure is a failure.
    pub open spec fn wf(self) -> bool {
        &&& forall|h: u32| #[trigger] self.pds.contains(h) ==> h < self.next_id
        &&& forall|h: u32| #[trigger] self.cqs.contains_key(h) ==> h < self.next_id
        &&& forall|h: u32| #[trigger] self.qps.contains_key(h) ==> h < self.next_id
        &&& forall|h: u32| #[trigger] self.mrs.contains_key(h) ==> h < self.next_id
        &&& self.armed matches Some(c) ==> c != 0
    }

    /// Status of a call whose arguments are acceptable exactly when `valid`.
    pub open spec fn status(self, valid: bool) -> i32 {
        if !valid {
            EINVAL
        } else {
            match self.armed {
                Some(c) => c,
                None => 0,
            }
        }
    }

    /// Status of a call that creates an object.
    pub open spec fn create_status(self, valid: bool) -> i32 {
        if self.status(valid) != 0 {
            self.status(valid)
        } else if self.next_id == u32::MAX {
            ENOMEM
        } else {
            0
        }
    }

    /// The state once an armed failure has fired.
    pub open spec fn disarmed(self) -> DeviceState {
        DeviceState { armed: None, ..self }
    }

    /// The state after a call: unchanged when it was refused, disarmed when
    /// an armed failure fired, `done` when it ran.
    pub open spec fn settle(self, valid: bool, done: DeviceState) -> DeviceState {
        if !valid {
            self
        } else if self.armed is Some {
            self.disarmed()
        } else {
            done
        }
    }

    /// The state after a creating call whose effect, when it runs, is `done`.
    pub open spec fn settle_create(self, valid: bool, done: DeviceState) -> DeviceState {
        if self.create_status(valid) == 0 {
            done
        } else {
            self.settle(valid, self)
        }
    }

    /// The key the next created object gets, with the counter advanced.
    pub open spec fn bump(self) -> DeviceState {
        DeviceState { next_id: (self.next_id + 1) as u32, ..self }
    }

    /// A new protection domain under key `next_id`.
    pub open spec fn pd_added(self) -> DeviceState {
        DeviceState { pds: self.pds.insert(self.next_id), ..self.bump() }
    }

    pub open spec fn pd_removed(self, h: u32) -> DeviceState {
        DeviceState { pds: self.pds.remove(h), ..self }
    }

    /// A new completion queue of capacity `cqe` under key `next_id`.
    pub open spec fn cq_added(self, cqe: u32) -> DeviceState {
        DeviceState { cqs: self.cqs.insert(self.next_id, cqe), ..self.bump() }
    }

    pub open spec fn cq_removed(self, h: u32) -> DeviceState {
        DeviceState { cqs: self.cqs.remove(h), ..self }
    }

    /// The attributes a queue pair starts with.
    pub open spec fn fresh_qp_attr() -> QpAttr {
        QpAttr { qp_state: 0, dest_qp_num: 0, sq_psn: 0, rq_psn: 0 }
    }

    /// A new queue pair in protection domain `pd` under key `next_id`.
    pub open spec fn qp_added(self, pd: u32, init: QpInitAttr) -> DeviceState {
        DeviceState {
            qps: self.qps.insert(
                self.next_id,
                QpRecord { pd, init, attr: Self::fresh_qp_attr() },
            ),
            ..self.bump()
        }
    }

    pub open spec fn qp_removed(self, h: u32) -> DeviceState {
        DeviceState { qps: self.qps.remove(h), ..self }
    }

    pub open spec fn qp_modified(self, h: u32, attr: QpAttr, mask: i32) -> DeviceState {
        DeviceState {
            qps: self.qps.insert(
                h,
                QpRecord { attr: apply_qp_attr(self.qps[h].attr, attr, mask), ..self.qps[h] },
            ),
            ..self
        }
    }

    /// A new memory region under key `next_id`.
    pub open spec fn mr_added(self, rec: MrRecord) -> DeviceState {
        DeviceState { mrs: self.mrs.insert(self.next_id, rec), ..self.bump() }
    }

    pub open spec fn mr_removed(self, h: u32) -> DeviceState {
        DeviceState { mrs: self.mrs.remove(h), ..self }
    }

    /// The header of an object created by the next creating call.
    pub open spec fn created(self) -> ObjectHeader {
        ObjectHeader { context: ContextRef::Device(self.context), id: self.next_id }
    }

    pub open spec fn pd_valid(self, pd: ObjectHeader) -> bool {
        self.owns(pd.context) && self.pds.contains(pd.id)
    }

    pub open spec fn cq_valid(self, cq: ObjectHeader) -> bool {
        self.owns(cq.context) && self.cqs.contains_key(cq.id)
    }

    pub open spec fn qp_valid(self, qp: ObjectHeader) -> bool {
        self.owns(qp.context) && self.qps.contains_key(qp.id)
    }

    pub open spec fn mr_valid(self, mr: ObjectHeader) -> bool {
        self.owns(mr.context) && self.mrs.contains_key(mr.id)
    }

    pub open spec fn cqe_valid(self, cqe: u32) -> bool {
        1 <= cqe <= self.attr.max_cqe
    }

    pub open spec fn qp_init_valid(self, pd: ObjectHeader, init: QpInitAttr) -> bool {
        self.pd_valid(pd) && self.cqs.contains_key(init.send_cq) && self.cqs.contains_key(
            init.recv_cq,
        )
    }

    pub open spec fn port_valid(self, port_num: u8) -> bool {
        1 <= port_num <= self.ports.len()
    }

    /// Send requests complete at once into the queue pair's send queue.
    pub open spec fn sends_posted(self, qp: u32, wrs: Seq<SendWr>) -> DeviceState {
        DeviceState {
            completions: self.completions + send_completions(self.qps[qp].init.send_cq, qp, wrs),
            ..self
        }
    }

    pub open spec fn recvs_posted(self, qp: u32, wrs: Seq<RecvWr>) -> DeviceState {
        DeviceState { recvs: self.recvs + posted_recvs(qp, wrs), ..self }
    }

    pub open spec fn polled(self, cq: u32, n: nat) -> DeviceState {
        DeviceState { completions: poll_split(self.completions, cq, n).1, ..self }
    }
}

/// An open context of the soft RDMA driver.
pub struct DeviceContext {
    context: u64,
    attr: DeviceAttr,
    ports: Vec<PortAttr>,
    pds: HashSet<u32>,
    cqs: HashMap<u32, u32>,
    qps: HashMap<u32, QpRecord>,
    mrs: HashMap<u32, MrRecord>,
    next_id: u32,
    armed: Option<i32>,
    completions: Vec<Completion>,
    recvs: Vec<PostedRecv>,
}

impl View for DeviceContext {
    type V = DeviceState;

    closed spec fn view(&self) -> DeviceState {
        DeviceState {
            context: self.context,
            attr: self.attr,
            ports: self.ports@,
            pds: self.pds@,
            cqs: self.cqs@,
            qps: self.qps@,
            mrs: self.mrs@,
            next_id: self.next_id,
            armed: self.armed,
            completions: self.completions@,
            recvs: self.recvs@,
        }
    }
}

impl DeviceContext {
    /// A freshly opened context with no resources.
    pub fn open_context(context: u64, attr: DeviceAttr, ports: &Vec<PortAttr>) -> (r: Self)
        ensures
            r@ == DeviceState::opened(context, attr, ports@),
            r@.wf(),
    {
        let mut copy: Vec<PortAttr> = Vec::new();
        let mut i: usize = 0;
        while i < ports.len()
            invariant
                i <= ports@.len(),
                copy@ == ports@.subrange(0, i as int),
            decreases ports@.len() - i,
        {
            copy.push(ports[i]);
            i = i + 1;
            proof {
                assert(copy@ =~= ports@.subrange(0, i as int));
            }
        }
        assert(copy@ =~= ports@);
        let r = DeviceContext {
            context,
            attr,
            ports: copy,
            pds: HashSet::new(),
            cqs: HashMap::new(),
            qps: HashMap::new(),
            mrs: HashMap::new(),
            next_id: 1,
            armed: None,
            completions: Vec::new(),
            recvs: Vec::new(),
        };
        r
    }

    /// Identity of this open context.
    pub fn context_id(&self) -> (r: u64)
        ensures
            r == self@.context,
    {
        self.context
    }

    /// How many protection domains, completion queues, queue pairs and
    /// memory regions are live.
    pub fn resource_counts(&self) -> (r: (usize, usize, usize, usize))
        ensures
            r == (
                self@.pds.len() as usize,
                self@.cqs.len() as usize,
                self@.qps.len() as usize,
                self@.mrs.len() as usize,
            ),
    {
        (self.pds.len(), self.cqs.len(), self.qps.len(), self.mrs.len())
    }

    /// Makes the next accepted call fail with `status` without running.
    pub fn arm_failure(&mut self, status: i32)
        requires
            old(self)@.wf(),
            status != 0,
        ensures
            final(self)@ == (DeviceState { armed: Some(status), ..old(self)@ }),
            final(self)@.wf(),
    {
        self.armed = Some(status);
    }

    fn gate(&mut self, valid: bool) -> (rc: i32)
        ensures
            rc == old(self)@.status(valid),
            final(self)@ == old(self)@.settle(valid, old(self)@),
    {
        if !valid {
            return EINVAL;
        }
        match self.armed {
            Some(c) => {
                self.armed = None;
                c
            },
            None => 0,
        }
    }

    fn gate_create(&mut self, valid: bool) -> (rc: i32)
        ensures
            rc == old(self)@.create_status(valid),
            final(self)@ == old(self)@.settle(valid, old(self)@),
    {
        let rc = self.gate(valid);
        if rc != 0 {
            return rc;
        }
        if self.next_id == u32::MAX {
            ENOMEM
        } else {
            0
        }
    }

    fn owns(&self, c: ContextRef) -> (r: bool)
        ensures
            r == self@.owns(c),
    {
        c == ContextRef::Device(self.context)
    }

    pub fn alloc_pd(&mut self) -> (r: Result<Pd, i32>)
        requires
            old(self)@.wf(),
        ensures
            final(self)@.wf(),
            final(self)@ == old(self)@.settle_create(true, old(self)@.pd_added()),
            r is Ok <==> old(self)@.create_status(true) == 0,
            r matches Ok(pd) ==> pd@ == old(self)@.created(),
            r matches Err(e) ==> e == old(self)@.create_status(true),
    {
        let rc = self.gate_create(true);
        if rc != 0 {
            return Err(rc);
        }
        let id = self.next_id;
        self.pds.insert(id);
        self.next_id = id + 1;
        Ok(Resource::new(ContextRef::Device(self.context), id, PdInfo))
    }

    pub fn dealloc_pd(&mut self, pd: &Pd) -> (rc: i32)
        requires
            old(self)@.wf(),
        ensures
            final(self)@.wf(),
            rc == old(self)@.status(old(self)@.pd_valid(pd@)),
            final(self)@ == old(self)@.settle(
                old(self)@.pd_valid(pd@),
                old(self)@.pd_removed(pd@.id),
            ),
    {
        let valid = self.owns(pd.context()) && self.pds.contains(&pd.id());
        let rc = self.gate(valid);
        if rc != 0 {
            return rc;
        }
        self.pds.remove(&pd.id());
        0
    }

    pub fn create_cq(&mut self, cqe: u32) -> (r: Result<Cq, i32>)
        requires
            old(self)@.wf(),
        ensures
            final(self)@.wf(),
            final(self)@ == old(self)@.settle_create(
                old(self)@.cqe_valid(cqe),
                old(self)@.cq_added(cqe),
            ),
            r is Ok <==> old(self)@.create_status(old(self)@.cqe_valid(cqe)) == 0,
            r matches Ok(cq) ==> cq@ == old(self)@.created() && cq.spec_info().cqe == cqe,
            r matches Err(e) ==> e == old(self)@.create_status(old(self)@.cqe_valid(cqe)),
    {
        let valid = 1 <= cqe && cqe <= self.attr.max_cqe;
        let rc = self.gate_create(valid);
        if rc != 0 {
            return Err(rc);
        }
        let id = self.next_id;
        self.cqs.insert(id, cqe);
        self.next_id = id + 1;
        Ok(Resource::new(ContextRef::Device(self.context), id, CqInfo { cqe }))
    }

    pub fn destroy_cq(&mut self, cq: &Cq) -> (rc: i32)
        requires
            old(self)@.wf(),
        ensures
            final(self)@.wf(),
            rc == old(self)@.status(old(self)@.cq_valid(cq@)),
            final(self)@ == old(self)@.settle(
                old(self)@.cq_valid(cq@),
                old(self)@.cq_removed(cq@.id),
            ),
    {
        let valid = self.owns(cq.context()) && self.cqs.contains_key(&cq.id());
        let rc = self.gate(valid);
        if rc != 0 {
            return rc;
        }
        self.cqs.remove(&cq.id());
        0
    }

    pub fn create_qp(&mut self, pd: &Pd, init: &QpInitAttr) -> (r: Result<Qp, i32>)
        requires
            old(self)@.wf(),
        ensures
            final(self)@.wf(),
            final(self)@ == old(self)@.settle_create(
                old(self)@.qp_init_valid(pd@, *init),
                old(self)@.qp_added(pd@.id, *init),
            ),
            r is Ok <==> old(self)@.create_status(old(self)@.qp_init_valid(pd@, *init)) == 0,
            r matches Ok(qp) ==> qp@ == old(self)@.created(),
            r matches Err(e) ==> e == old(self)@.create_status(
                old(self)@.qp_init_valid(pd@, *init),
            ),
    {
        let valid = self.owns(pd.context()) && self.pds.contains(&pd.id())
            && self.cqs.contains_key(&init.send_cq) && self.cqs.contains_key(&init.recv_cq);
        let rc = self.gate_create(valid);
        if rc != 0 {
            return Err(rc);
        }
        let id = self.next_id;
        let attr = QpAttr { qp_state: 0, dest_qp_num: 0, sq_psn: 0, rq_psn: 0 };
        self.qps.insert(id, QpRecord { pd: pd.id(), init: *init, attr });
        self.next_id = id + 1;
        Ok(Resource::new(ContextRef::Device(self.context), id, QpInfo))
    }

    pub fn destroy_qp(&mut self, qp: &Qp) -> (rc: i32)
        requires
            old(self)@.wf(),
        ensures
            final(self)@.wf(),
            rc == old(self)@.status(old(self)@.qp_valid(qp@)),
            final(self)@ == old(self)@.settle(
                old(self)@.qp_valid(qp@),
                old(self)@.qp_removed(qp@.id),
            ),
    {
        let valid = self.owns(qp.context()) && self.qps.contains_key(&qp.id());
        let rc = self.gate(valid);
        if rc != 0 {
            return rc;
        }
        self.qps.remove(&qp.id());
        0
    }

    pub fn modify_qp(&mut self, qp: &Qp, attr: &QpAttr, mask: i32) -> (rc: i32)
        requires
            old(self)@.wf(),
        ensures
            final(self)@.wf(),
            rc == old(self)@.status(old(self)@.qp_valid(qp@)),
            final(self)@ == old(self)@.settle(
                old(self)@.qp_valid(qp@),
                old(self)@.qp_modified(qp@.id, *attr, mask),
            ),
    {
        let valid = self.owns(qp.context()) && self.qps.contains_key(&qp.id());
        let rc = self.gate(valid);
        if rc != 0 {
            return rc;
        }
        let id = qp.id();
        let rec = *self.qps.get(&id).unwrap();
        let merged = merge_qp_attr(rec.attr, *attr, mask);
        self.qps.insert(id, QpRecord { attr: merged, ..rec });
        0
    }

    /// The current and the creation attributes of a queue pair.
    pub fn query_qp(&mut self, qp: &Qp) -> (r: Result<(QpAttr, QpInitAttr), i32>)
        requires
            old(self)@.wf(),
        ensures
            final(self)@.wf(),
            final(self)@ == old(self)@.settle(old(self)@.qp_valid(qp@), old(self)@),
            r is Ok <==> old(self)@.status(old(self)@.qp_valid(qp@)) == 0,
            r matches Ok(a) ==> a == (old(self)@.qps[qp@.id].attr, old(self)@.qps[qp@.id].init),
            r matches Err(e) ==> e == old(self)@.status(old(self)@.qp_valid(qp@)),
    {
        let valid = self.owns(qp.context()) && self.qps.contains_key(&qp.id());
        let rc = self.gate(valid);
        if rc != 0 {
            return Err(rc);
        }
        let rec = *self.qps.get(&qp.id()).unwrap();
        Ok((rec.attr, rec.init))
    }

    pub fn reg_mr(&mut self, pd: &Pd, addr: u64, length: usize, access: i32) -> (r: Result<
        Mr,
        i32,
    >)
        requires
            old(self)@.wf(),
        ensures
            final(self)@.wf(),
            final(self)@ == old(self)@.settle_create(
                old(self)@.pd_valid(pd@) && length > 0,
                old(self)@.mr_added(MrRecord { pd: pd@.id, addr, length, access }),
            ),
            r is Ok <==> old(self)@.create_status(old(self)@.pd_valid(pd@) && length > 0) == 0,
            r matches Ok(mr) ==> mr@ == old(self)@.created() && mr.spec_info() == (MrInfo {
                addr,
                length,
            }),
            r matches Err(e) ==> e == old(self)@.create_status(
                old(self)@.pd_valid(pd@) && length > 0,
            ),
    {
        let valid = self.owns(pd.context()) && self.pds.contains(&pd.id()) && length > 0;
        let rc = self.gate_create(valid);
        if rc != 0 {
            return Err(rc);
        }
        let id = self.next_id;
        self.mrs.insert(id, MrRecord { pd: pd.id(), addr, length, access });
        self.next_id = id + 1;
        Ok(Resource::new(ContextRef::Device(self.context), id, MrInfo { addr, length }))
    }

    pub fn dereg_mr(&mut self, mr: &Mr) -> (rc: i32)
        requires
            old(self)@.wf(),
        ensures
            final(self)@.wf(),
            rc == old(self)@.status(old(self)@.mr_valid(mr@)),
            final(self)@ == old(self)@.settle(
                old(self)@.mr_valid(mr@),
                old(self)@.mr_removed(mr@.id),
            ),
    {
        let valid = self.owns(mr.context()) && self.mrs.contains_key(&mr.id());
        let rc = self.gate(valid);
        if rc != 0 {
            return rc;
        }
        self.mrs.remove(&mr.id());
        0
    }

    /// Operation-table entry: posts send requests. On failure `bad_wr` names
    /// the first request, which was not posted.
    pub fn post_send(&mut self, qp: &Qp, wrs: &Vec<SendWr>, bad_wr: &mut Option<u64>) -> (rc: i32)
        requires
            old(self)@.wf(),
        ensures
            final(self)@.wf(),
            rc == old(self)@.status(old(self)@.qp_valid(qp@)),
            final(self)@ == old(self)@.settle(
                old(self)@.qp_valid(qp@),
                old(self)@.sends_posted(qp@.id, wrs@),
            ),
            *final(bad_wr) == (if rc == 0 || wrs@.len() == 0 {
                None
            } else {
                Some(wrs@[0].wr_id)
            }),
    {
        let valid = self.owns(qp.context()) && self.qps.contains_key(&qp.id());
        let rc = self.gate(valid);
        if rc != 0 {
            *bad_wr = if wrs.len() == 0 {
                None
            } else {
                Some(wrs[0].wr_id)
            };
            return rc;
        }
        *bad_wr = None;
        let id = qp.id();
        let cq = self.qps.get(&id).unwrap().init.send_cq;
        let ghost start = self.completions@;
        let ghost pre = self@;
        let mut i: usize = 0;
        while i < wrs.len()
            invariant
                i <= wrs@.len(),
                self@ == (DeviceState { completions: self@.completions, ..pre }),
                self.completions@ == start + send_completions(cq, id, wrs@.subrange(0, i as int)),
            decreases wrs@.len() - i,
        {
            let wr = wrs[i];
            self.completions.push(
                Completion {
                    cq,
                    wc: Wc {
                        wr_id: wr.wr_id,
                        status: 0,
                        opcode: wr.opcode,
                        byte_len: wr.length,
                        qp_num: id,
                    },
                },
            );
            i = i + 1;
            proof {
                assert(send_completions(cq, id, wrs@.subrange(0, i as int)) =~= send_completions(
                    cq,
                    id,
                    wrs@.subrange(0, i - 1),
                ).push(send_completion(cq, id, wr)));
            }
        }
        proof {
            assert(wrs@.subrange(0, wrs@.len() as int) =~= wrs@);
        }
        0
    }

    /// Operation-table entry: posts receive requests. On failure `bad_wr`
    /// names the first request, which was not posted.
    pub fn post_recv(&mut self, qp: &Qp, wrs: &Vec<RecvWr>, bad_wr: &mut Option<u64>) -> (rc: i32)
        requires
            old(self)@.wf(),
        ensures
            final(self)@.wf(),
            rc == old(self)@.status(old(self)@.qp_valid(qp@)),
            final(self)@ == old(self)@.settle(
                old(self)@.qp_valid(qp@),
                old(self)@.recvs_posted(qp@.id, wrs@),
            ),
            *final(bad_wr) == (if rc == 0 || wrs@.len() == 0 {
                None
            } else {
                Some(wrs@[0].wr_id)
            }),
    {
        let valid = self.owns(qp.context()) && self.qps.contains_key(&qp.id());
        let rc = self.gate(valid);
        if rc != 0 {
            *bad_wr = if wrs.len() == 0 {
                None
            } else {
                Some(wrs[0].wr_id)
            };
            return rc;
        }
        *bad_wr = None;
        let id = qp.id();
        let ghost start = self.recvs@;
        let ghost pre = self@;
        let mut i: usize = 0;
        while i < wrs.len()
            invariant
                i <= wrs@.len(),
                self@ == (DeviceState { recvs: self@.recvs, ..pre }),
                self.recvs@ == start + posted_recvs(id, wrs@.subrange(0, i as int)),
            decreases wrs@.len() - i,
        {
            let wr = wrs[i];
            self.recvs.push(PostedRecv { qp: id, wr });
            i = i + 1;
            proof {
                assert(posted_recvs(id, wrs@.subrange(0, i as int)) =~= posted_recvs(
                    id,
                    wrs@.subrange(0, i - 1),
                ).push(PostedRecv { qp: id, wr }));
            }
        }
        proof {
            assert(wrs@.subrange(0, wrs@.len() as int) =~= wrs@);
        }
        0
    }

    /// Operation-table entry: takes at most `num_entries` of the oldest
    /// completions of a completion queue.
    pub fn poll_cq(&mut self, cq: &Cq, num_entries: u32) -> (r: Result<Vec<Wc>, i32>)
        requires
            old(self)@.wf(),
        ensures
            final(self)@.wf(),
            final(self)@ == old(self)@.settle(
                old(self)@.cq_valid(cq@),
                old(self)@.polled(cq@.id, num_entries as nat),
            ),
            r is Ok <==> old(self)@.status(old(self)@.cq_valid(cq@)) == 0,
            r matches Ok(v) ==> v@ == poll_split(
                old(self)@.completions,
                cq@.id,
                num_entries as nat,
            ).0,
            r matches Err(e) ==> e == old(self)@.status(old(self)@.cq_valid(cq@)),
    {
        let valid = self.owns(cq.context()) && self.cqs.contains_key(&cq.id());
        let rc = self.gate(valid);
        if rc != 0 {
            return Err(rc);
        }
        let id = cq.id();
        let ghost s = self.completions@;
        let ghost n = num_entries as nat;
        let mut polled: Vec<Wc> = Vec::new();
        let mut rest: Vec<Completion> = Vec::new();
        let mut taken: u32 = 0;
        let mut i: usize = 0;
        proof {
            assert(s.subrange(0, s.len() as int) =~= s);
            let t = poll_split(s, id, n);
            assert(polled@ + t.0 =~= t.0);
            assert(rest@ + t.1 =~= t.1);
        }
        while i < self.completions.len()
            invariant
                s == self.completions@,
                n == num_entries as nat,
                i <= s.len(),
                taken <= num_entries,
                poll_split(s, id, n) == (
                    polled@ + poll_split(s.subrange(i as int, s.len() as int), id, (n - taken) as nat).0,
                    rest@ + poll_split(s.subrange(i as int, s.len() as int), id, (n - taken) as nat).1,
                ),
            decreases s.len() - i,
        {
            let c = self.completions[i];
            let ghost tail = s.subrange(i as int, s.len() as int);
            let ghost m = (n - taken) as nat;
            proof {
                assert(tail.drop_first() =~= s.subrange(i + 1, s.len() as int));
                assert(tail[0] == c);
            }
            if c.cq == id && taken < num_entries {
                proof {
                    let t = poll_split(tail.drop_first(), id, (m - 1) as nat);
                    assert(poll_split(tail, id, m) == (seq![c.wc] + t.0, t.1));
                    assert(polled@.push(c.wc) + t.0 =~= polled@ + (seq![c.wc] + t.0));
                }
                polled.push(c.wc);
                taken = taken + 1;
            } else {
                proof {
                    let t = poll_split(tail.drop_first(), id, m);
                    assert(poll_split(tail, id, m) == (t.0, seq![c] + t.1));
                    assert(rest@.push(c) + t.1 =~= rest@ + (seq![c] + t.1));
                }
                rest.push(c);
            }
            i = i + 1;
            proof {
                assert(s.subrange(i as int, s.len() as int) =~= tail.drop_first());
            }
        }
        proof {
            assert(polled@ + Seq::<Wc>::empty() =~= polled@);
            assert(rest@ + Seq::<Completion>::empty() =~= rest@);
        }
        self.completions = rest;
        Ok(polled)
    }

    /// Operation-table entry: device attributes.
    pub fn query_device(&mut self) -> (r: Result<DeviceAttr, i32>)
        requires
            old(self)@.wf(),
        ensures
            final(self)@.wf(),
            final(self)@ == old(self)@.settle(true, old(self)@),
            r is Ok <==> old(self)@.status(true) == 0,
            r matches Ok(a) ==> a == old(self)@.attr,
            r matches Err(e) ==> e == old(self)@.status(true),
    {
        let rc = self.gate(true);
        if rc != 0 {
            return Err(rc);
        }
        Ok(self.attr)
    }

    /// Operation-table entry: attributes of port `port_num`, counted from one.
    pub fn query_port(&mut self, port_num: u8) -> (r: Result<PortAttr, i32>)
        requires
            old(self)@.wf(),
        ensures
            final(self)@.wf(),
            final(self)@ == old(self)@.settle(old(self)@.port_valid(port_num), old(self)@),
            r is Ok <==> old(self)@.status(old(self)@.port_valid(port_num)) == 0,
            r matches Ok(a) ==> a == old(self)@.ports[port_num - 1],
            r matches Err(e) ==> e == old(self)@.status(old(self)@.port_valid(port_num)),
    {
        let valid = 1 <= port_num && (port_num as usize) <= self.ports.len();
        let rc = self.gate(valid);
        if rc != 0 {
            return Err(rc);
        }
        Ok(self.ports[(port_num - 1) as usize])
    }
}

} // verus!
