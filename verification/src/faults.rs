//! Decoding of the live and the sticky fault words.
//!
//! A fault word is a 32-bit field in which each named condition owns one bit.
//! The two words agree on their first five bits; the live word then has the
//! hardware-failure bit, which has no sticky counterpart, so every later
//! condition sits one bit lower in the sticky word.

use vstd::prelude::*;

verus! {

/// The masks of bits 0 to 10, the bits that name a condition.
pub const BIT_0: i32 = 0x001;
pub const BIT_1: i32 = 0x002;
pub const BIT_2: i32 = 0x004;
pub const BIT_3: i32 = 0x008;
pub const BIT_4: i32 = 0x010;
pub const BIT_5: i32 = 0x020;
pub const BIT_6: i32 = 0x040;
pub const BIT_7: i32 = 0x080;
pub const BIT_8: i32 = 0x100;
pub const BIT_9: i32 = 0x200;
pub const BIT_10: i32 = 0x400;

/// The word whose only set bit is bit `k`.
pub open spec fn single_bit(k: u32) -> i32
    recommends
        k < 32,
{
    (1u32 << k) as i32
}

/// 1 for a condition that holds, 0 for one that does not.
pub open spec fn count_of(flag: bool) -> nat {
    if flag { 1 } else { 0 }
}

/// The live fault conditions of a controller, as last read from it.
#[derive(Debug, Copy, Clone)]
pub struct Faults(i32);

impl Faults {
    /// The raw fault word.
    pub closed spec fn raw_value(self) -> i32 {
        self.0
    }

    /// Whether any bit of `mask` is set in the word.
    pub open spec fn flag(self, mask: i32) -> bool {
        self.raw_value() & mask != 0
    }

    /// How many of the eleven named conditions hold.
    pub open spec fn named_count(self) -> nat {
        count_of(self.flag(BIT_0)) + count_of(self.flag(BIT_1)) + count_of(self.flag(BIT_2))
            + count_of(self.flag(BIT_3)) + count_of(self.flag(BIT_4)) + count_of(
            self.flag(BIT_5),
        ) + count_of(self.flag(BIT_6)) + count_of(self.flag(BIT_7)) + count_of(self.flag(BIT_8))
            + count_of(self.flag(BIT_9)) + count_of(self.flag(BIT_10))
    }

    /// Wraps a fault word read from a controller. Every word is valid.
    pub fn from_raw(raw: i32) -> (r: Self)
        ensures
            r.raw_value() == raw,
    {
        Faults(raw)
    }

    /// The fault word as it was read.
    pub fn raw(self) -> (r: i32)
        ensures
            r == self.raw_value(),
    {
        self.0
    }

    /// The supply voltage fell too low.
    pub fn under_voltage(self) -> (r: bool)
        ensures
            r == self.flag(BIT_0),
    {
        self.0 & BIT_0 != 0
    }

    /// The forward limit switch is triggered.
    pub fn forward_limit_switch(self) -> (r: bool)
        ensures
            r == self.flag(BIT_1),
    {
        self.0 & BIT_1 != 0
    }

    /// The reverse limit switch is triggered.
    pub fn reverse_limit_switch(self) -> (r: bool)
        ensures
            r == self.flag(BIT_2),
    {
        self.0 & BIT_2 != 0
    }

    /// The forward soft limit is reached.
    pub fn forward_soft_limit(self) -> (r: bool)
        ensures
            r == self.flag(BIT_3),
    {
        self.0 & BIT_3 != 0
    }

    /// The reverse soft limit is reached.
    pub fn reverse_soft_limit(self) -> (r: bool)
        ensures
            r == self.flag(BIT_4),
    {
        self.0 & BIT_4 != 0
    }

    /// The controller reports a failure of its hardware.
    pub fn hardware_failure(self) -> (r: bool)
        ensures
            r == self.flag(BIT_5),
    {
        self.0 & BIT_5 != 0
    }

    /// The controller reset while it was enabled.
    pub fn reset_during_en(self) -> (r: bool)
        ensures
            r == self.flag(BIT_6),
    {
        self.0 & BIT_6 != 0
    }

    /// The sensor reading overflowed.
    pub fn sensor_overflow(self) -> (r: bool)
        ensures
            r == self.flag(BIT_7),
    {
        self.0 & BIT_7 != 0
    }

    /// The sensor moves against the output.
    pub fn sensor_out_of_phase(self) -> (r: bool)
        ensures
            r == self.flag(BIT_8),
    {
        self.0 & BIT_8 != 0
    }

    /// The controller reset after an electrostatic discharge.
    pub fn hardware_esd_reset(self) -> (r: bool)
        ensures
            r == self.flag(BIT_9),
    {
        self.0 & BIT_9 != 0
    }

    /// The signal of a remote sensor is lost.
    pub fn remote_loss_of_signal(self) -> (r: bool)
        ensures
            r == self.flag(BIT_10),
    {
        self.0 & BIT_10 != 0
    }

    /// True iff any bit of the word is set, named or not.
    pub fn has_any_fault(self) -> (r: bool)
        ensures
            r == (self.raw_value() != 0),
    {
        self.0 != 0
    }
}

/// The sticky fault conditions of a controller: each stays set until it is
/// cleared on the device.
#[derive(Debug, Copy, Clone)]
pub struct StickyFaults(i32);

impl StickyFaults {
    /// The raw sticky fault word.
    pub closed spec fn raw_value(self) -> i32 {
        self.0
    }

    /// Whether any bit of `mask` is set in the word.
    pub open spec fn flag(self, mask: i32) -> bool {
        self.raw_value() & mask != 0
    }

    /// How many of the ten named conditions hold.
    pub open spec fn named_count(self) -> nat {
        count_of(self.flag(BIT_0)) + count_of(self.flag(BIT_1)) + count_of(self.flag(BIT_2))
            + count_of(self.flag(BIT_3)) + count_of(self.flag(BIT_4)) + count_of(
            self.flag(BIT_5),
        ) + count_of(self.flag(BIT_6)) + count_of(self.flag(BIT_7)) + count_of(self.flag(BIT_8))
            + count_of(self.flag(BIT_9))
    }

    /// Wraps a sticky fault word read from a controller. Every word is valid.
    pub fn from_raw(raw: i32) -> (r: Self)
        ensures
            r.raw_value() == raw,
    {
        StickyFaults(raw)
    }

    /// The sticky fault word as it was read.
    pub fn raw(self) -> (r: i32)
        ensures
            r == self.raw_value(),
    {
        self.0
    }

    /// The supply voltage fell too low.
    pub fn under_voltage(self) -> (r: bool)
        ensures
            r == self.flag(BIT_0),
    {
        self.0 & BIT_0 != 0
    }

    /// The forward limit switch is triggered.
    pub fn forward_limit_switch(self) -> (r: bool)
        ensures
            r == self.flag(BIT_1),
    {
        self.0 & BIT_1 != 0
    }

    /// The reverse limit switch is triggered.
    pub fn reverse_limit_switch(self) -> (r: bool)
        ensures
            r == self.flag(BIT_2),
    {
        self.0 & BIT_2 != 0
    }

    /// The forward soft limit is reached.
    pub fn forward_soft_limit(self) -> (r: bool)
        ensures
            r == self.flag(BIT_3),
    {
        self.0 & BIT_3 != 0
    }

    /// The reverse soft limit is reached.
    pub fn reverse_soft_limit(self) -> (r: bool)
        ensures
            r == self.flag(BIT_4),
    {
        self.0 & BIT_4 != 0
    }

    /// The controller reset while it was enabled.
    pub fn reset_during_en(self) -> (r: bool)
        ensures
            r == self.flag(BIT_5),
    {
        self.0 & BIT_5 != 0
    }

    /// The sensor reading overflowed.
    pub fn sensor_overflow(self) -> (r: bool)
        ensures
            r == self.flag(BIT_6),
    {
        self.0 & BIT_6 != 0
    }

    /// The sensor moves against the output.
    pub fn sensor_out_of_phase(self) -> (r: bool)
        ensures
            r == self.flag(BIT_7),
    {
        self.0 & BIT_7 != 0
    }

    /// The controller reset after an electrostatic discharge.
    pub fn hardware_esd_reset(self) -> (r: bool)
        ensures
            r == self.flag(BIT_8),
    {
        self.0 & BIT_8 != 0
    }

    /// The signal of a remote sensor is lost.
    pub fn remote_loss_of_signal(self) -> (r: bool)
        ensures
            r == self.flag(BIT_9),
    {
        self.0 & BIT_9 != 0
    }

    /// True iff any bit of the word is set, named or not.
    pub fn has_any_fault(self) -> (r: bool)
        ensures
            r == (self.raw_value() != 0),
    {
        self.0 != 0
    }
}

/// A word with one bit set meets a one-bit mask exactly when the two are equal,
/// and is never zero.
proof fn lemma_single_bit_meets_mask(k: u32, j: u32)
    by (bit_vector)
    requires
        k < 32,
        j < 32,
    ensures
        (((1u32 << k) as i32) & ((1u32 << j) as i32) != 0) == (k == j),
        ((1u32 << k) as i32) != 0,
{
}

proof fn lemma_mask_values()
    by (bit_vector)
    ensures
        (1u32 << 0u32) as i32 == 0x001i32,
        (1u32 << 1u32) as i32 == 0x002i32,
        (1u32 << 2u32) as i32 == 0x004i32,
        (1u32 << 3u32) as i32 == 0x008i32,
        (1u32 << 4u32) as i32 == 0x010i32,
        (1u32 << 5u32) as i32 == 0x020i32,
        (1u32 << 6u32) as i32 == 0x040i32,
        (1u32 << 7u32) as i32 == 0x080i32,
        (1u32 << 8u32) as i32 == 0x100i32,
        (1u32 << 9u32) as i32 == 0x200i32,
        (1u32 << 10u32) as i32 == 0x400i32,
{
}

/// A live fault word with only bit `k` set shows exactly the condition that
/// owns bit `k` and no other; bits 11 and above belong to no condition, so such
/// a word shows none of them. Either way the word counts as having a fault.
pub proof fn lemma_faults_single_bit(f: Faults, k: u32)
    requires
        k < 32,
        f.raw_value() == single_bit(k),
    ensures
        f.flag(BIT_0) == (k == 0),
        f.flag(BIT_1) == (k == 1),
        f.flag(BIT_2) == (k == 2),
        f.flag(BIT_3) == (k == 3),
        f.flag(BIT_4) == (k == 4),
        f.flag(BIT_5) == (k == 5),
        f.flag(BIT_6) == (k == 6),
        f.flag(BIT_7) == (k == 7),
        f.flag(BIT_8) == (k == 8),
        f.flag(BIT_9) == (k == 9),
        f.flag(BIT_10) == (k == 10),
        f.named_count() == (if k <= 10 { 1nat } else { 0nat }),
        f.raw_value() != 0,
{
    lemma_mask_values();
    lemma_single_bit_meets_mask(k, 0);
    lemma_single_bit_meets_mask(k, 1);
    lemma_single_bit_meets_mask(k, 2);
    lemma_single_bit_meets_mask(k, 3);
    lemma_single_bit_meets_mask(k, 4);
    lemma_single_bit_meets_mask(k, 5);
    lemma_single_bit_meets_mask(k, 6);
    lemma_single_bit_meets_mask(k, 7);
    lemma_single_bit_meets_mask(k, 8);
    lemma_single_bit_meets_mask(k, 9);
    lemma_single_bit_meets_mask(k, 10);
}

/// A sticky fault word with only bit `k` set shows exactly the condition that
/// owns bit `k` and no other; bits 10 and above belong to no condition, so such
/// a word shows none of them. Either way the word counts as having a fault.
pub proof fn lemma_sticky_faults_single_bit(f: StickyFaults, k: u32)
    requires
        k < 32,
        f.raw_value() == single_bit(k),
    ensures
        f.flag(BIT_0) == (k == 0),
        f.flag(BIT_1) == (k == 1),
        f.flag(BIT_2) == (k == 2),
        f.flag(BIT_3) == (k == 3),
        f.flag(BIT_4) == (k == 4),
        f.flag(BIT_5) == (k == 5),
        f.flag(BIT_6) == (k == 6),
        f.flag(BIT_7) == (k == 7),
        f.flag(BIT_8) == (k == 8),
        f.flag(BIT_9) == (k == 9),
        f.named_count() == (if k <= 9 { 1nat } else { 0nat }),
        f.raw_value() != 0,
{
    lemma_mask_values();
    lemma_single_bit_meets_mask(k, 0);
    lemma_single_bit_meets_mask(k, 1);
    lemma_single_bit_meets_mask(k, 2);
    lemma_single_bit_meets_mask(k, 3);
    lemma_single_bit_meets_mask(k, 4);
    lemma_single_bit_meets_mask(k, 5);
    lemma_single_bit_meets_mask(k, 6);
    lemma_single_bit_meets_mask(k, 7);
    lemma_single_bit_meets_mask(k, 8);
    lemma_single_bit_meets_mask(k, 9);
}

} // verus!
