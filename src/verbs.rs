//! Plain values exchanged with a verbs driver: status codes, the context
//! reference that every resource object embeds, and attribute records.
use vstd::prelude::*;

verus! {

/// Raw status of a driver call: zero for success, anything else is a failure
/// code passed through unchanged.
pub type VerbsError = i32;

/// Invalid argument: an object the driver does not own, or a bad parameter.
pub const EINVAL: i32 = 22;

/// The driver has no room left for another object.
pub const ENOMEM: i32 = 12;

/// The owning-context field embedded in every resource object.
#[derive(PartialEq, Eq, Structural, Clone, Copy, Debug)]
pub enum ContextRef {
    /// The virtual device's context, as callers of the provider see it.
    Virtual(u64),
    /// An open context of the underlying driver.
    Device(u64),
}

/// What a resource object looks like to a specification: the context it is
/// stamped with and the driver's key for it.
pub struct ObjectHeader {
    pub context: ContextRef,
    pub id: u32,
}

/// A resource object handed out by a driver. The fields are private, so a
/// caller can only obtain one by creating it, and since it is neither `Copy`
/// nor `Clone`, destroying it consumes the only handle to it.
pub struct Resource<K> {
    context: ContextRef,
    id: u32,
    info: K,
}

/// Marker of a protection domain.
pub struct PdInfo;

/// What a completion queue was created with.
pub struct CqInfo {
    pub cqe: u32,
}

/// Marker of a queue pair.
pub struct QpInfo;

/// The range a memory region covers.
pub struct MrInfo {
    pub addr: u64,
    pub length: usize,
}

pub type Pd = Resource<PdInfo>;

pub type Cq = Resource<CqInfo>;

pub type Qp = Resource<QpInfo>;

pub type Mr = Resource<MrInfo>;

impl<K> View for Resource<K> {
    type V = ObjectHeader;

    closed spec fn view(&self) -> ObjectHeader {
        ObjectHeader { context: self.context, id: self.id }
    }
}

impl<K> Resource<K> {
    /// The kind-specific part of the object.
    pub closed spec fn spec_info(&self) -> K {
        self.info
    }

    pub(crate) fn new(context: ContextRef, id: u32, info: K) -> (r: Self)
        ensures
            r@ == (ObjectHeader { context, id }),
            r.spec_info() == info,
    {
        Resource { context, id, info }
    }

    /// The context this object is currently stamped with.
    pub fn context(&self) -> (r: ContextRef)
        ensures
            r == self@.context,
    {
        self.context
    }

    /// The driver's key for this object.
    pub fn id(&self) -> (r: u32)
        ensures
            r == self@.id,
    {
        self.id
    }

    pub fn info(&self) -> (r: &K)
        ensures
            *r == self.spec_info(),
    {
        &self.info
    }

    /// Overwrites the embedded context and returns the value it held.
    pub(crate) fn swap_context(&mut self, context: ContextRef) -> (prev: ContextRef)
        ensures
            prev == old(self)@.context,
            final(self)@ == (ObjectHeader { context, id: old(self)@.id }),
            final(self).spec_info() == old(self).spec_info(),
    {
        let prev = self.context;
        self.context = context;
        prev
    }
}

/// Device-wide attributes as the driver reports them.
#[derive(PartialEq, Eq, Structural, Clone, Copy, Debug)]
pub struct DeviceAttr {
    pub fw_ver: u64,
    pub vendor_id: u32,
    pub max_qp: u32,
    pub max_cq: u32,
    pub max_cqe: u32,
    pub max_mr: u32,
    pub max_pd: u32,
    pub phys_port_cnt: u8,
}

/// Attributes of one physical port.
#[derive(PartialEq, Eq, Structural, Clone, Copy, Debug)]
pub struct PortAttr {
    pub state: u32,
    pub max_mtu: u32,
    pub active_mtu: u32,
    pub lid: u16,
    pub link_layer: u8,
}

/// What a queue pair is created with: its completion queues, by key, and
/// its queue depths.
#[derive(PartialEq, Eq, Structural, Clone, Copy, Debug)]
pub struct QpInitAttr {
    pub send_cq: u32,
    pub recv_cq: u32,
    pub max_send_wr: u32,
    pub max_recv_wr: u32,
    pub qp_type: u32,
}

/// The modifiable attributes of a queue pair.
#[derive(PartialEq, Eq, Structural, Clone, Copy, Debug)]
pub struct QpAttr {
    pub qp_state: u32,
    pub dest_qp_num: u32,
    pub sq_psn: u32,
    pub rq_psn: u32,
}

/// A send work request.
#[derive(PartialEq, Eq, Structural, Clone, Copy, Debug)]
pub struct SendWr {
    pub wr_id: u64,
    pub opcode: u32,
    pub length: u32,
}

/// A receive work request.
#[derive(PartialEq, Eq, Structural, Clone, Copy, Debug)]
pub struct RecvWr {
    pub wr_id: u64,
    pub length: u32,
}

/// A completion descriptor.
#[derive(PartialEq, Eq, Structural, Clone, Copy, Debug)]
pub struct Wc {
    pub wr_id: u64,
    pub status: u32,
    pub opcode: u32,
    pub byte_len: u32,
    pub qp_num: u32,
}

/// `modify_qp` mask bit that selects `qp_state`.
pub const QP_STATE: i32 = 1;

/// `modify_qp` mask bit that selects `rq_psn`.
pub const QP_RQ_PSN: i32 = 4096;

/// `modify_qp` mask bit that selects `sq_psn`.
pub const QP_SQ_PSN: i32 = 65536;

/// `modify_qp` mask bit that selects `dest_qp_num`.
pub const QP_DEST_QPN: i32 = 1048576;

/// The attributes after applying the fields of `attr` that `mask` selects.
pub open spec fn apply_qp_attr(cur: QpAttr, attr: QpAttr, mask: i32) -> QpAttr {
    QpAttr {
        qp_state: if mask & QP_STATE != 0 { attr.qp_state } else { cur.qp_state },
        dest_qp_num: if mask & QP_DEST_QPN != 0 { attr.dest_qp_num } else { cur.dest_qp_num },
        sq_psn: if mask & QP_SQ_PSN != 0 { attr.sq_psn } else { cur.sq_psn },
        rq_psn: if mask & QP_RQ_PSN != 0 { attr.rq_psn } else { cur.rq_psn },
    }
}

/// Applies the fields of `attr` that `mask` selects.
pub fn merge_qp_attr(cur: QpAttr, attr: QpAttr, mask: i32) -> (r: QpAttr)
    ensures
        r == apply_qp_attr(cur, attr, mask),
{
    QpAttr {
        qp_state: if mask & QP_STATE != 0 { attr.qp_state } else { cur.qp_state },
        dest_qp_num: if mask & QP_DEST_QPN != 0 { attr.dest_qp_num } else { cur.dest_qp_num },
        sq_psn: if mask & QP_SQ_PSN != 0 { attr.sq_psn } else { cur.sq_psn },
        rq_psn: if mask & QP_RQ_PSN != 0 { attr.rq_psn } else { cur.rq_psn },
    }
}

} // verus!
