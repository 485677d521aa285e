//! The seal of the controller interface.

use vstd::prelude::*;
use crate::controller::TalonSRX;
use crate::controller::VictorSPX;

verus! {

/// Implemented by the two controller types and by nothing else, so that the
/// controller interface stays closed.
pub trait Sealed {

}

impl Sealed for TalonSRX {

}

impl Sealed for VictorSPX {

}

} // verus!
