//! A verbs provider that presents a virtual RDMA device while delegating every
//! resource and data-path operation to an already-open soft RDMA driver.
//!
//! Resource objects carry the context that owns them. Around each delegated
//! call the provider retargets that field to the driver's context and, for
//! every object that survives the call, restores it afterwards.
pub mod device;
pub mod discovery;
pub mod handle;
pub mod laws;
pub mod provider;
pub mod rxe;
pub mod verbs;
