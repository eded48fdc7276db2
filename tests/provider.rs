use urdma_provider::discovery::DiscoveryError;
use urdma_provider::discovery::HostDevice;
use urdma_provider::discovery::contains_bytes;
use urdma_provider::discovery::find_device;
use urdma_provider::handle::URdmaDevice;
use urdma_provider::handle::VerbsDevice;
use urdma_provider::provider::Provider;
use urdma_provider::rxe::Rxe;
use urdma_provider::verbs::ContextRef;
use urdma_provider::verbs::DeviceAttr;
use urdma_provider::verbs::EINVAL;
use urdma_provider::verbs::PortAttr;
use urdma_provider::verbs::QP_DEST_QPN;
use urdma_provider::verbs::QP_RQ_PSN;
use urdma_provider::verbs::QP_SQ_PSN;
use urdma_provider::verbs::QP_STATE;
use urdma_provider::verbs::QpAttr;
use urdma_provider::verbs::QpInitAttr;
use urdma_provider::verbs::RecvWr;
use urdma_provider::verbs::SendWr;
use urdma_provider::verbs::merge_qp_attr;

const VIRT: u64 = 0xabc;
const DEV: u64 = 7;

fn attr() -> DeviceAttr {
    DeviceAttr {
        fw_ver: 0x1_0002,
        vendor_id: 0x8086,
        max_qp: 64,
        max_cq: 64,
        max_cqe: 256,
        max_mr: 64,
        max_pd: 64,
        phys_port_cnt: 1,
    }
}

fn port() -> PortAttr {
    PortAttr { state: 4, max_mtu: 5, active_mtu: 3, lid: 0, link_layer: 2 }
}

fn host(name: &str, context_id: u64, open_status: i32) -> HostDevice {
    HostDevice {
        name: name.as_bytes().to_vec(),
        context_id,
        attr: attr(),
        ports: vec![port()],
        open_status,
    }
}

fn rxe() -> Rxe {
    let devices = vec![host("mlx5_0", 3, 0), host("rxe0", DEV, 0)];
    match Rxe::new(VIRT, &devices) {
        Ok(r) => r,
        Err(_) => panic!("discovery failed"),
    }
}

#[test]
fn init_succeeds_and_repeats() {
    assert_eq!(Rxe::init(), Ok(()));
    assert_eq!(Rxe::init(), Ok(()));
}

#[test]
fn contains_bytes_finds_runs() {
    assert!(contains_bytes(&b"rxe0".to_vec(), &b"rxe".to_vec()));
    assert!(contains_bytes(&b"eth_rxe".to_vec(), &b"rxe".to_vec()));
    assert!(!contains_bytes(&b"rx".to_vec(), &b"rxe".to_vec()));
    assert!(!contains_bytes(&b"r-x-e".to_vec(), &b"rxe".to_vec()));
    assert!(contains_bytes(&b"".to_vec(), &b"".to_vec()));
}

#[test]
fn find_device_takes_first_match() {
    let devices = vec![host("mlx5_0", 1, 0), host("rxe0", 2, 0), host("rxe1", 3, 0)];
    assert_eq!(find_device(&devices), Some(1));
    let none = vec![host("mlx5_0", 1, 0), host("siw0", 2, 0)];
    assert_eq!(find_device(&none), None);
}

#[test]
fn discovery_without_matching_device_is_not_found() {
    let devices = vec![host("mlx5_0", 1, 0), host("siw0", 2, 0)];
    assert!(matches!(Rxe::new(VIRT, &devices), Err(DiscoveryError::NotFound)));
    let empty: Vec<HostDevice> = Vec::new();
    assert!(matches!(Rxe::new(VIRT, &empty), Err(DiscoveryError::NotFound)));
}

#[test]
fn discovery_reports_open_failure() {
    let devices = vec![host("rxe0", 1, 13), host("rxe1", 2, 0)];
    assert!(matches!(Rxe::new(VIRT, &devices), Err(DiscoveryError::OsError(13))));
}

#[test]
fn discovery_with_one_match_queries_transparently() {
    let mut r = rxe();
    assert_eq!(r.device_context(), DEV);
    assert_eq!(r.virtual_context(), VIRT);
    assert_eq!(r.query_device(), Ok(attr()));
    assert_eq!(r.query_port(1), Ok(port()));
    assert_eq!(r.query_port(0), Err(EINVAL));
    assert_eq!(r.query_port(2), Err(EINVAL));
}

#[test]
fn created_objects_carry_virtual_context() {
    let mut r = rxe();
    let mut pd = r.alloc_pd().unwrap();
    assert_eq!(pd.context(), ContextRef::Virtual(VIRT));
    let cq = r.create_cq(16).unwrap();
    assert_eq!(cq.context(), ContextRef::Virtual(VIRT));
    assert_eq!(cq.info().cqe, 16);
    let init = QpInitAttr { send_cq: cq.id(), recv_cq: cq.id(), max_send_wr: 8, max_recv_wr: 8, qp_type: 2 };
    let qp = r.create_qp(&mut pd, &init).unwrap();
    assert_eq!(qp.context(), ContextRef::Virtual(VIRT));
    assert_eq!(pd.context(), ContextRef::Virtual(VIRT));
    let mr = r.reg_mr(&mut pd, 0x1000, 4096, 7).unwrap();
    assert_eq!(mr.context(), ContextRef::Virtual(VIRT));
    assert_eq!(mr.info().addr, 0x1000);
    assert_eq!(mr.info().length, 4096);
    assert_eq!(pd.context(), ContextRef::Virtual(VIRT));
    assert_eq!((pd.id(), cq.id(), qp.id(), mr.id()), (1, 2, 3, 4));
}

#[test]
fn create_then_destroy_restores_accounting() {
    let mut r = rxe();
    assert_eq!(r.resource_counts(), (0, 0, 0, 0));
    let mut pd = r.alloc_pd().unwrap();
    let cq = r.create_cq(4).unwrap();
    let before = r.resource_counts();
    assert_eq!(before, (1, 1, 0, 0));
    let init = QpInitAttr { send_cq: cq.id(), recv_cq: cq.id(), max_send_wr: 4, max_recv_wr: 4, qp_type: 2 };
    let qp = r.create_qp(&mut pd, &init).unwrap();
    assert_eq!(r.resource_counts(), (1, 1, 1, 0));
    assert!(r.destroy_qp(qp).is_ok());
    assert_eq!(r.resource_counts(), before);
    let mr = r.reg_mr(&mut pd, 0, 64, 1).unwrap();
    assert_eq!(r.resource_counts(), (1, 1, 0, 1));
    assert!(r.dereg_mr(mr).is_ok());
    assert_eq!(r.resource_counts(), before);
    assert!(r.destroy_cq(cq).is_ok());
    assert!(r.dealloc_pd(pd).is_ok());
    assert_eq!(r.resource_counts(), (0, 0, 0, 0));
}

#[test]
fn failed_destroy_hands_object_back() {
    let mut r = rxe();
    let pd = r.alloc_pd().unwrap();
    r.fail_next_call(16);
    let pd = match r.dealloc_pd(pd) {
        Err((back, rc)) => {
            assert_eq!(rc, 16);
            back
        }
        Ok(()) => panic!("dealloc should have failed"),
    };
    assert_eq!(pd.context(), ContextRef::Virtual(VIRT));
    assert_eq!(r.resource_counts(), (1, 0, 0, 0));
    assert!(r.dealloc_pd(pd).is_ok());
    assert_eq!(r.resource_counts(), (0, 0, 0, 0));
}

#[test]
fn failed_call_restores_context_and_retry_succeeds() {
    let mut r = rxe();
    let mut pd = r.alloc_pd().unwrap();
    let cq = r.create_cq(4).unwrap();
    let init = QpInitAttr { send_cq: cq.id(), recv_cq: cq.id(), max_send_wr: 4, max_recv_wr: 4, qp_type: 2 };
    let mut qp = r.create_qp(&mut pd, &init).unwrap();
    let attr = QpAttr { qp_state: 1, dest_qp_num: 0, sq_psn: 0, rq_psn: 0 };
    r.fail_next_call(5);
    assert_eq!(r.modify_qp(&mut qp, &attr, QP_STATE), Err(5));
    assert_eq!(qp.context(), ContextRef::Virtual(VIRT));
    assert_eq!(r.modify_qp(&mut qp, &attr, QP_STATE), Ok(()));
    assert_eq!(qp.context(), ContextRef::Virtual(VIRT));
    assert_eq!(r.query_qp(&mut qp).unwrap().0.qp_state, 1);
}

#[test]
fn failed_create_restores_pd_context() {
    let mut r = rxe();
    let mut pd = r.alloc_pd().unwrap();
    let init = QpInitAttr { send_cq: 99, recv_cq: 99, max_send_wr: 4, max_recv_wr: 4, qp_type: 2 };
    assert!(matches!(r.create_qp(&mut pd, &init), Err(EINVAL)));
    assert_eq!(pd.context(), ContextRef::Virtual(VIRT));
    r.fail_next_call(12);
    assert!(matches!(r.reg_mr(&mut pd, 0, 64, 1), Err(12)));
    assert_eq!(pd.context(), ContextRef::Virtual(VIRT));
    assert!(matches!(r.reg_mr(&mut pd, 0, 0, 1), Err(EINVAL)));
    assert_eq!(r.resource_counts(), (1, 0, 0, 0));
}

#[test]
fn create_cq_checks_capacity() {
    let mut r = rxe();
    assert!(matches!(r.create_cq(0), Err(EINVAL)));
    assert!(matches!(r.create_cq(257), Err(EINVAL)));
    assert!(r.create_cq(256).is_ok());
}

#[test]
fn query_qp_reports_creation_attributes() {
    let mut r = rxe();
    let mut pd = r.alloc_pd().unwrap();
    let cq = r.create_cq(4).unwrap();
    let init = QpInitAttr { send_cq: cq.id(), recv_cq: cq.id(), max_send_wr: 3, max_recv_wr: 5, qp_type: 2 };
    let mut qp = r.create_qp(&mut pd, &init).unwrap();
    let (a, i) = r.query_qp(&mut qp).unwrap();
    assert_eq!(a, QpAttr { qp_state: 0, dest_qp_num: 0, sq_psn: 0, rq_psn: 0 });
    assert_eq!(i, init);
    assert_eq!(qp.context(), ContextRef::Virtual(VIRT));
}

#[test]
fn modify_qp_applies_selected_fields() {
    let mut r = rxe();
    let mut pd = r.alloc_pd().unwrap();
    let cq = r.create_cq(4).unwrap();
    let init = QpInitAttr { send_cq: cq.id(), recv_cq: cq.id(), max_send_wr: 3, max_recv_wr: 5, qp_type: 2 };
    let mut qp = r.create_qp(&mut pd, &init).unwrap();
    let attr = QpAttr { qp_state: 3, dest_qp_num: 17, sq_psn: 100, rq_psn: 200 };
    assert_eq!(r.modify_qp(&mut qp, &attr, QP_STATE | QP_DEST_QPN), Ok(()));
    let (a, _) = r.query_qp(&mut qp).unwrap();
    assert_eq!(a, QpAttr { qp_state: 3, dest_qp_num: 17, sq_psn: 0, rq_psn: 0 });
}

#[test]
fn merge_qp_attr_exact() {
    let cur = QpAttr { qp_state: 1, dest_qp_num: 2, sq_psn: 3, rq_psn: 4 };
    let new = QpAttr { qp_state: 10, dest_qp_num: 20, sq_psn: 30, rq_psn: 40 };
    assert_eq!(merge_qp_attr(cur, new, 0), cur);
    assert_eq!(
        merge_qp_attr(cur, new, QP_SQ_PSN | QP_RQ_PSN),
        QpAttr { qp_state: 1, dest_qp_num: 2, sq_psn: 30, rq_psn: 40 }
    );
    assert_eq!(merge_qp_attr(cur, new, QP_STATE | QP_DEST_QPN | QP_SQ_PSN | QP_RQ_PSN), new);
}

#[test]
fn sends_complete_into_send_cq_in_order() {
    let mut r = rxe();
    let mut pd = r.alloc_pd().unwrap();
    let mut scq = r.create_cq(8).unwrap();
    let mut rcq = r.create_cq(8).unwrap();
    let init = QpInitAttr { send_cq: scq.id(), recv_cq: rcq.id(), max_send_wr: 8, max_recv_wr: 8, qp_type: 2 };
    let mut qp = r.create_qp(&mut pd, &init).unwrap();
    let wrs = vec![
        SendWr { wr_id: 11, opcode: 2, length: 64 },
        SendWr { wr_id: 12, opcode: 2, length: 128 },
        SendWr { wr_id: 13, opcode: 0, length: 8 },
    ];
    let mut bad: Option<u64> = Some(0);
    assert_eq!(r.post_send(&mut qp, &wrs, &mut bad), Ok(()));
    assert_eq!(bad, None);
    assert_eq!(qp.context(), ContextRef::Virtual(VIRT));
    assert_eq!(r.poll_cq(&mut rcq, 4).unwrap().len(), 0);
    let first = r.poll_cq(&mut scq, 2).unwrap();
    assert_eq!(first.len(), 2);
    assert_eq!((first[0].wr_id, first[0].byte_len, first[0].status), (11, 64, 0));
    assert_eq!((first[1].wr_id, first[1].byte_len), (12, 128));
    assert_eq!(first[1].qp_num, qp.id());
    let rest = r.poll_cq(&mut scq, 4).unwrap();
    assert_eq!(rest.len(), 1);
    assert_eq!((rest[0].wr_id, rest[0].opcode), (13, 0));
    assert_eq!(r.poll_cq(&mut scq, 4).unwrap().len(), 0);
    assert_eq!(scq.context(), ContextRef::Virtual(VIRT));
}

#[test]
fn failed_post_reports_first_request() {
    let mut r = rxe();
    let mut pd = r.alloc_pd().unwrap();
    let cq = r.create_cq(8).unwrap();
    let init = QpInitAttr { send_cq: cq.id(), recv_cq: cq.id(), max_send_wr: 8, max_recv_wr: 8, qp_type: 2 };
    let mut qp = r.create_qp(&mut pd, &init).unwrap();
    let wrs = vec![RecvWr { wr_id: 21, length: 64 }, RecvWr { wr_id: 22, length: 64 }];
    let mut bad: Option<u64> = None;
    r.fail_next_call(11);
    assert_eq!(r.post_recv(&mut qp, &wrs, &mut bad), Err(11));
    assert_eq!(bad, Some(21));
    assert_eq!(qp.context(), ContextRef::Virtual(VIRT));
    assert_eq!(r.post_recv(&mut qp, &wrs, &mut bad), Ok(()));
    assert_eq!(bad, None);
    r.fail_next_call(11);
    let sends = vec![SendWr { wr_id: 31, opcode: 0, length: 1 }];
    assert_eq!(r.post_send(&mut qp, &sends, &mut bad), Err(11));
    assert_eq!(bad, Some(31));
}

#[test]
fn device_handle_exposes_header_and_driver() {
    let header = VerbsDevice { name: b"urdma0".to_vec(), abi_version: 1 };
    let mut dev = URdmaDevice::new(header, rxe());
    assert_eq!(dev.header().name, b"urdma0".to_vec());
    assert_eq!(dev.header().abi_version, 1);
    assert_eq!(dev.driver().virtual_context(), VIRT);
    let pd = dev.driver_mut().alloc_pd().unwrap();
    assert_eq!(pd.context(), ContextRef::Virtual(VIRT));
    let mut r = dev.into_driver();
    assert_eq!(r.resource_counts(), (1, 0, 0, 0));
    assert!(r.dealloc_pd(pd).is_ok());
}
