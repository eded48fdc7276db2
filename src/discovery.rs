//! Finding the soft RDMA device among the host's devices and opening it.
use vstd::prelude::*;
use crate::device::DeviceContext;
use crate::device::DeviceState;
use crate::verbs::DeviceAttr;
use crate::verbs::PortAttr;

verus! {

/// A device as the host enumerates it.
pub struct HostDevice {
    pub name: Vec<u8>,
    /// Identity the context gets when the device is opened.
    pub context_id: u64,
    pub attr: DeviceAttr,
    pub ports: Vec<PortAttr>,
    /// Zero when the device can be opened, else the error the open reports.
    pub open_status: i32,
}

/// Why no driver instance could be made.
#[derive(PartialEq, Eq, Structural, Clone, Copy, Debug)]
pub enum DiscoveryError {
    /// No device name holds the soft RDMA driver's name.
    NotFound,
    /// Opening the matching device failed with this code.
    OsError(i32),
}

/// The name that marks a device of the soft RDMA driver: "rxe".
pub open spec fn driver_name() -> Seq<u8> {
    seq![0x72u8, 0x78u8, 0x65u8]
}

/// Whether `pat` occurs in `hay` as a contiguous run.
pub open spec fn contains_seq(hay: Seq<u8>, pat: Seq<u8>) -> bool {
    exists|i: int| 0 <= i && i + pat.len() <= hay.len() && #[trigger] hay.subrange(i, i + pat.len()) == pat
}

pub open spec fn is_driver_device(d: HostDevice) -> bool {
    contains_seq(d.name@, driver_name())
}

/// Index of the first device at or after `k` whose name marks the driver.
pub open spec fn first_match_from(devs: Seq<HostDevice>, k: int) -> Option<int>
    decreases devs.len() - k,
{
    if k < 0 || k >= devs.len() {
        None
    } else if is_driver_device(devs[k]) {
        Some(k)
    } else {
        first_match_from(devs, k + 1)
    }
}

/// Index of the first device whose name marks the driver.
pub open spec fn first_match(devs: Seq<HostDevice>) -> Option<int> {
    first_match_from(devs, 0)
}

/// What opening device `d` gives.
pub open spec fn open_result(d: HostDevice) -> Result<DeviceState, DiscoveryError> {
    if d.open_status != 0 {
        Err(DiscoveryError::OsError(d.open_status))
    } else {
        Ok(DeviceState::opened(d.context_id, d.attr, d.ports@))
    }
}

/// What discovery over `devs` gives: the opened first matching device.
pub open spec fn discover_result(devs: Seq<HostDevice>) -> Result<DeviceState, DiscoveryError> {
    match first_match(devs) {
        None => Err(DiscoveryError::NotFound),
        Some(j) => open_result(devs[j]),
    }
}

/// Whether `pat` occurs in `hay` starting at `i`.
fn matches_at(hay: &Vec<u8>, pat: &Vec<u8>, i: usize) -> (r: bool)
    requires
        i + pat@.len() <= hay@.len(),
    ensures
        r == (hay@.subrange(i as int, i + pat@.len()) == pat@),
{
    let hlen = hay.len();
    let mut j: usize = 0;
    while j < pat.len()
        invariant
            hlen == hay@.len(),
            i + pat@.len() <= hay@.len(),
            j <= pat@.len(),
            forall|k: int| 0 <= k < j ==> hay@[i + k] == pat@[k],
        decreases pat@.len() - j,
    {
        if hay[i + j] != pat[j] {
            proof {
                assert(hay@.subrange(i as int, i + pat@.len())[j as int] != pat@[j as int]);
            }
            return false;
        }
        j = j + 1;
    }
    proof {
        assert(hay@.subrange(i as int, i + pat@.len()) =~= pat@);
    }
    true
}

/// Whether `pat` occurs in `hay`.
pub fn contains_bytes(hay: &Vec<u8>, pat: &Vec<u8>) -> (r: bool)
    ensures
        r == contains_seq(hay@, pat@),
{
    if pat.len() > hay.len() {
        return false;
    }
    if pat.len() == 0 {
        proof {
            assert(hay@.subrange(0, 0 + pat@.len() as int) =~= pat@);
        }
        return true;
    }
    let last = hay.len() - pat.len();
    let mut i: usize = 0;
    while i <= last
        invariant
            1 <= pat@.len() <= hay@.len() <= usize::MAX,
            last == hay@.len() - pat@.len(),
            i <= last + 1,
            forall|k: int|
                0 <= k < i && k + pat@.len() <= hay@.len() ==> #[trigger] hay@.subrange(
                    k,
                    k + pat@.len(),
                ) != pat@,
        decreases hay@.len() - i,
    {
        if matches_at(hay, pat, i) {
            return true;
        }
        i = i + 1;
    }
    false
}

/// Index of the first device whose name marks the driver.
pub fn find_device(devices: &Vec<HostDevice>) -> (r: Option<usize>)
    ensures
        r matches Some(j) ==> first_match(devices@) == Some(j as int) && j < devices@.len(),
        r is None ==> first_match(devices@) is None,
{
    let pat: Vec<u8> = vec![0x72u8, 0x78u8, 0x65u8];
    proof {
        assert(pat@ =~= driver_name());
    }
    let mut i: usize = 0;
    while i < devices.len()
        invariant
            i <= devices@.len(),
            pat@ == driver_name(),
            first_match(devices@) == first_match_from(devices@, i as int),
        decreases devices@.len() - i,
    {
        if contains_bytes(&devices[i].name, &pat) {
            return Some(i);
        }
        i = i + 1;
    }
    None
}

/// Opens device `d`.
pub fn open_device(d: &HostDevice) -> (r: Result<DeviceContext, DiscoveryError>)
    ensures
        match (r, open_result(*d)) {
            (Ok(c), Ok(s)) => c@ == s && c@.wf(),
            (Err(e), Err(f)) => e == f,
            _ => false,
        },
{
    if d.open_status != 0 {
        return Err(DiscoveryError::OsError(d.open_status));
    }
    Ok(DeviceContext::open_context(d.context_id, d.attr, &d.ports))
}

/// Opens the first device whose name marks the soft RDMA driver. The
/// devices are only read: nothing is opened when none matches.
pub fn discover(devices: &Vec<HostDevice>) -> (r: Result<DeviceContext, DiscoveryError>)
    ensures
        match (r, discover_result(devices@)) {
            (Ok(c), Ok(s)) => c@ == s && c@.wf(),
            (Err(e), Err(f)) => e == f,
            _ => false,
        },
{
    match find_device(devices) {
        None => Err(DiscoveryError::NotFound),
        Some(j) => open_device(&devices[j]),
    }
}

} // verus!
