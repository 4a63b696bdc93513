//! The shared device handle of the application: opened lazily, and dropped
//! after any failed operation so that the next one reopens it (the headset
//! may have been unplugged, or the wireless link may have dropped).

use vstd::prelude::*;

verus! {

/// Error text when no device can be opened.
pub const NOT_CONNECTED: &'static str = "Pelta not connected";

pub struct DeviceSlot<D> {
    device: Option<D>,
}

impl<D> DeviceSlot<D> {
    pub closed spec fn device(&self) -> Option<D> {
        self.device
    }

    pub fn new(device: Option<D>) -> (s: DeviceSlot<D>)
        ensures
            s.device() == device,
    {
        DeviceSlot { device }
    }

    pub fn is_connected(&self) -> (r: bool)
        ensures
            r == self.device() is Some,
    {
        self.device.is_some()
    }

    /// Installs a freshly opened handle (or none, when opening failed);
    /// returns whether a device is now held.
    pub fn replace(&mut self, opened: Option<D>) -> (r: bool)
        ensures
            final(self).device() == opened,
            r == opened is Some,
    {
        let r = opened.is_some();
        self.device = opened;
        r
    }

    /// The held device, or the "not connected" error.
    pub fn current(&self) -> (r: Result<&D, String>)
        ensures
            r is Ok <==> self.device() is Some,
            r matches Ok(d) ==> self.device() == Some(*d),
            r matches Err(m) ==> m@ == NOT_CONNECTED@,
    {
        match &self.device {
            Some(d) => Ok(d),
            None => Err(String::from_str(NOT_CONNECTED)),
        }
    }

    /// Passes on the outcome of an operation on the device; a failure drops
    /// the handle so that the next operation opens the device anew.
    pub fn settle<T>(&mut self, outcome: Result<T, String>) -> (r: Result<T, String>)
        ensures
            r == outcome,
            final(self).device() == if outcome is Ok {
                old(self).device()
            } else {
                None
            },
    {
        if outcome.is_err() {
            self.device = None;
        }
        outcome
    }
}

} // verus!
