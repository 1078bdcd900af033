//! The vehicle components the fixture can exercise.

use vstd::prelude::*;

verus! {

/// A selectable device, from the fixed, closed list the picker shows.
#[derive(Clone, Copy, PartialEq, Eq, Structural, Debug)]
pub enum Device {
    /// Brake Signal Transmitter
    BST,
    /// Continuous Wear Sensor
    CWS,
    /// Pressure Sensor
    PrS,
    /// Electronic Stability Control Module
    ESCM,
}

impl Device {
    /// The display label, used both in the picker and as the `device` string
    /// sent to the controller.
    pub open spec fn spec_label(self) -> Seq<char> {
        match self {
            Device::BST => "Brake Signal Transmitter"@,
            Device::CWS => "Continuous Wear Sensor"@,
            Device::PrS => "Pressure Sensor"@,
            Device::ESCM => "Electronic Stability Control Module"@,
        }
    }

    /// The human-readable label of this device.
    pub fn label(&self) -> (r: &'static str)
        ensures
            r@ == self.spec_label(),
    {
        match self {
            Device::BST => "Brake Signal Transmitter",
            Device::CWS => "Continuous Wear Sensor",
            Device::PrS => "Pressure Sensor",
            Device::ESCM => "Electronic Stability Control Module",
        }
    }
}

/// The fixed, ordered list of devices the picker offers.
pub fn all_devices() -> (r: Vec<Device>)
    ensures
        r@ =~= seq![Device::BST, Device::CWS, Device::PrS, Device::ESCM],
{
    let mut v: Vec<Device> = Vec::new();
    v.push(Device::BST);
    v.push(Device::CWS);
    v.push(Device::PrS);
    v.push(Device::ESCM);
    v
}

} // verus!
