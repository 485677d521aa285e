//! When two controller objects are the same controller.

use vstd::prelude::*;
use crate::address::device_number_value;
use crate::controller::BaseMotorController;
use crate::controller::Device;
use crate::controller::TalonSRX;

verus! {

/// Two Talon SRX objects are equal when they have the same device number.
impl PartialEq for TalonSRX {
    fn eq(&self, other: &TalonSRX) -> (r: bool) {
        self.get_device_id() == other.get_device_id()
    }
}

impl vstd::std_specs::cmp::PartialEqSpecImpl for TalonSRX {
    open spec fn obeys_eq_spec() -> bool {
        true
    }

    open spec fn eq_spec(&self, other: &TalonSRX) -> bool {
        device_number_value(self.base_id()) == device_number_value(other.base_id())
    }
}

} // verus!
