//! The virtual device handle: a generic device header, which enumeration code
//! reads without knowing the backend, followed by the driver instance.
use vstd::prelude::*;

verus! {

/// The generic part of a device, common to every backend.
pub struct VerbsDevice {
    pub name: Vec<u8>,
    pub abi_version: u32,
}

/// A virtual device: the generic header first, then the driver instance.
pub struct URdmaDevice<D> {
    verbs_dev: VerbsDevice,
    driver: D,
}

impl<D> URdmaDevice<D> {
    pub closed spec fn spec_header(&self) -> &VerbsDevice {
        &self.verbs_dev
    }

    pub closed spec fn spec_driver(&self) -> D {
        self.driver
    }

    pub fn new(verbs_dev: VerbsDevice, driver: D) -> (r: Self)
        ensures
            r.spec_header() == verbs_dev,
            r.spec_driver() == driver,
    {
        URdmaDevice { verbs_dev, driver }
    }

    pub fn header(&self) -> (r: &VerbsDevice)
        ensures
            r == self.spec_header(),
    {
        &self.verbs_dev
    }

    pub fn driver(&self) -> (r: &D)
        ensures
            *r == self.spec_driver(),
    {
        &self.driver
    }

    /// The driver instance, for operations that change it.
    pub fn driver_mut(&mut self) -> (r: &mut D)
        ensures
            *r == old(self).spec_driver(),
            final(self).spec_driver() == *final(r),
            final(self).spec_header() == old(self).spec_header(),
    {
        &mut self.driver
    }

    /// Tears the handle down, handing back the driver instance.
    pub fn into_driver(self) -> (r: D)
        ensures
            r == self.spec_driver(),
    {
        self.driver
    }
}

} // verus!
