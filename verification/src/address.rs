//! Device identity: the address of a controller on the bus.
//!
//! A base address is the device number, 0 to 62, OR'd into the tag of the
//! controller's family. The tag fills the upper sixteen bits; the device number
//! sits in the lowest six.

use vstd::prelude::*;

verus! {

/// The family tag of a Talon SRX.
pub const TALON_SRX_TAG: i32 = 0x0204_0000;

/// The family tag of a Victor SPX.
pub const VICTOR_SPX_TAG: i32 = 0x0104_0000;

/// The largest device number.
pub const MAX_DEVICE_NUMBER: i32 = 62;

/// The bits of an address that hold the device number.
pub const DEVICE_NUMBER_MASK: i32 = 0x3f;

/// The bits of an address that hold the family tag.
pub const FAMILY_TAG_MASK: i32 = -0x1_0000;

/// The two controller families.
#[derive(Debug, Copy, Clone, PartialEq, Eq, Structural)]
pub enum DeviceFamily {
    TalonSRX,
    VictorSPX,
}

impl DeviceFamily {
    pub open spec fn tag_value(self) -> i32 {
        match self {
            DeviceFamily::TalonSRX => TALON_SRX_TAG,
            DeviceFamily::VictorSPX => VICTOR_SPX_TAG,
        }
    }

    /// The tag that marks an address as one of this family.
    pub fn tag(self) -> (r: i32)
        ensures
            r == self.tag_value(),
    {
        match self {
            DeviceFamily::TalonSRX => TALON_SRX_TAG,
            DeviceFamily::VictorSPX => VICTOR_SPX_TAG,
        }
    }
}

/// A device number that a controller can have.
pub open spec fn valid_device_number(device_number: i32) -> bool {
    0 <= device_number <= MAX_DEVICE_NUMBER
}

pub open spec fn base_address_value(family: DeviceFamily, device_number: i32) -> i32 {
    device_number | family.tag_value()
}

pub open spec fn device_number_value(address: i32) -> i32 {
    address & DEVICE_NUMBER_MASK
}

pub open spec fn family_tag_value(address: i32) -> i32 {
    address & FAMILY_TAG_MASK
}

pub open spec fn family_value(address: i32) -> Option<DeviceFamily> {
    if family_tag_value(address) == TALON_SRX_TAG {
        Some(DeviceFamily::TalonSRX)
    } else if family_tag_value(address) == VICTOR_SPX_TAG {
        Some(DeviceFamily::VictorSPX)
    } else {
        None
    }
}

/// The 24-bit form of an address, by which a follower names its master: the
/// upper sixteen bits moved down by eight, over the lowest eight.
pub open spec fn follower_id_value(address: i32) -> i32 {
    ((address >> 16) << 8) | (address & 0xff)
}

/// The address of device `device_number` of `family`. The number is not
/// checked: one outside 0 to 62 is OR'd in as it is.
pub fn base_address(family: DeviceFamily, device_number: i32) -> (r: i32)
    ensures
        r == base_address_value(family, device_number),
{
    device_number | family.tag()
}

/// The device number held in `address`.
pub fn device_number_of(address: i32) -> (r: i32)
    ensures
        r == device_number_value(address),
        0 <= r <= 63,
{
    assert(0 <= address & 0x3f <= 63) by (bit_vector);
    address & DEVICE_NUMBER_MASK
}

/// The family tag held in `address`.
pub fn family_tag_of(address: i32) -> (r: i32)
    ensures
        r == family_tag_value(address),
{
    address & FAMILY_TAG_MASK
}

/// The family whose tag `address` holds, if it holds one.
pub fn family_of(address: i32) -> (r: Option<DeviceFamily>)
    ensures
        r == family_value(address),
{
    let tag: i32 = family_tag_of(address);
    if tag == TALON_SRX_TAG {
        Some(DeviceFamily::TalonSRX)
    } else if tag == VICTOR_SPX_TAG {
        Some(DeviceFamily::VictorSPX)
    } else {
        None
    }
}

/// The 24-bit follower form of `address`.
pub fn follower_id(address: i32) -> (r: i32)
    ensures
        r == follower_id_value(address),
{
    ((address >> 16) << 8) | (address & 0xff)
}

/// Composing an address from a family and a device number from 0 to 62, then
/// taking it apart, gives back the device number and the family's tag.
pub proof fn lemma_address_round_trip(family: DeviceFamily, device_number: i32)
    requires
        valid_device_number(device_number),
    ensures
        device_number_value(base_address_value(family, device_number)) == device_number,
        family_tag_value(base_address_value(family, device_number)) == family.tag_value(),
        family_value(base_address_value(family, device_number)) == Some(family),
{
    let n = device_number;
    assert((n | 0x0204_0000i32) & 0x3fi32 == n && (n | 0x0204_0000i32) & (-0x1_0000i32)
        == 0x0204_0000i32) by (bit_vector)
        requires
            0 <= n <= 62,
    ;
    assert((n | 0x0104_0000i32) & 0x3fi32 == n && (n | 0x0104_0000i32) & (-0x1_0000i32)
        == 0x0104_0000i32) by (bit_vector)
        requires
            0 <= n <= 62,
    ;
}

/// The follower form of a composed address keeps the family's tag above the
/// device number: it is the tag's upper half moved to bits 8 to 23, plus the
/// device number, and so lies above every bare device number.
pub proof fn lemma_follower_id_of_composed(family: DeviceFamily, device_number: i32)
    requires
        valid_device_number(device_number),
    ensures
        follower_id_value(base_address_value(family, device_number)) == (family.tag_value() / 256)
            + device_number,
        follower_id_value(base_address_value(family, device_number)) > MAX_DEVICE_NUMBER,
{
    let n = device_number;
    assert((((n | 0x0204_0000i32) >> 16) << 8) | ((n | 0x0204_0000i32) & 0xff) == 0x0002_0400i32
        + n) by (bit_vector)
        requires
            0 <= n <= 62,
    ;
    assert((((n | 0x0104_0000i32) >> 16) << 8) | ((n | 0x0104_0000i32) & 0xff) == 0x0001_0400i32
        + n) by (bit_vector)
        requires
            0 <= n <= 62,
    ;
}

} // verus!
