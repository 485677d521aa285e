//! Control-mode dispatch: from a mode and two demands to what is sent.
//!
//! One `set` sends one command. Most modes send both demands as they are and
//! leave their meaning to the controller. Three modes are encoded here:
//! `Follower` turns a bare device number into the 24-bit identifier of the
//! device to follow and leaves any other first demand as it is, `Current`
//! turns amperes into whole milliamperes, and `Disabled` sends zeros.

use vstd::prelude::*;
use crate::demand::Demand;
use crate::address::follower_id;
use crate::address::follower_id_value;
use crate::address::MAX_DEVICE_NUMBER;
use crate::address::DeviceFamily;
use crate::address::base_address_value;
use crate::address::valid_device_number;
use crate::address::lemma_follower_id_of_composed;

verus! {

/// How the controller is to drive its output.
#[derive(Debug, Copy, Clone, PartialEq, Eq, Structural)]
pub enum ControlMode {
    PercentOutput,
    Position,
    Velocity,
    Current,
    Follower,
    MotionProfile,
    MotionMagic,
    MotionProfileArc,
    Disabled,
}

impl ControlMode {
    /// The number that the controller knows the value by.
    pub open spec fn code_value(self) -> i32 {
        match self {
            ControlMode::PercentOutput => 0,
            ControlMode::Position => 1,
            ControlMode::Velocity => 2,
            ControlMode::Current => 3,
            ControlMode::Follower => 5,
            ControlMode::MotionProfile => 6,
            ControlMode::MotionMagic => 7,
            ControlMode::MotionProfileArc => 10,
            ControlMode::Disabled => 15,
        }
    }

    /// The number that the controller knows the value by.
    pub fn code(self) -> (r: i32)
        ensures
            r == self.code_value(),
    {
        match self {
            ControlMode::PercentOutput => 0,
            ControlMode::Position => 1,
            ControlMode::Velocity => 2,
            ControlMode::Current => 3,
            ControlMode::Follower => 5,
            ControlMode::MotionProfile => 6,
            ControlMode::MotionMagic => 7,
            ControlMode::MotionProfileArc => 10,
            ControlMode::Disabled => 15,
        }
    }
}

/// What the second demand of a `set` stands for.
#[derive(Debug, Copy, Clone, PartialEq, Eq, Structural)]
pub enum DemandType {
    /// The second demand is not used.
    Neutral,
    /// The second demand is the target of the auxiliary closed loop.
    AuxPID,
    /// The second demand is added to the output as a feed-forward term.
    ArbitraryFeedForward,
}

impl DemandType {
    /// The number that the controller knows the value by.
    pub open spec fn code_value(self) -> i32 {
        match self {
            DemandType::Neutral => 0,
            DemandType::AuxPID => 1,
            DemandType::ArbitraryFeedForward => 2,
        }
    }

    /// The number that the controller knows the value by.
    pub fn code(self) -> (r: i32)
        ensures
            r == self.code_value(),
    {
        match self {
            DemandType::Neutral => 0,
            DemandType::AuxPID => 1,
            DemandType::ArbitraryFeedForward => 2,
        }
    }
}

/// Which output of its master a follower mirrors.
#[derive(Debug, Copy, Clone, PartialEq, Eq, Structural)]
pub enum FollowerType {
    /// The master's single output.
    PercentOutput,
    /// The output of the master's auxiliary closed loop.
    AuxOutput1,
}

impl FollowerType {
    /// The number that the controller knows the value by.
    pub open spec fn code_value(self) -> i32 {
        match self {
            FollowerType::PercentOutput => 0,
            FollowerType::AuxOutput1 => 1,
        }
    }

    /// The number that the controller knows the value by.
    pub fn code(self) -> (r: i32)
        ensures
            r == self.code_value(),
    {
        match self {
            FollowerType::PercentOutput => 0,
            FollowerType::AuxOutput1 => 1,
        }
    }
}

/// One command as it crosses to the controller.
#[derive(Debug, Copy, Clone, PartialEq, Eq, Structural)]
pub enum Command {
    /// A mode with two demands and the second demand's type.
    Apply(Demands),
    /// A mode with two whole-number demands.
    ApplyWhole(WholeDemands),
}

/// A mode with two demands and what the second one stands for.
#[derive(Debug, Copy, Clone, PartialEq, Eq, Structural)]
pub struct Demands {
    pub mode: ControlMode,
    pub demand0: Demand,
    pub demand1: Demand,
    pub demand1_type: DemandType,
}

/// A mode with two demands that are whole numbers.
#[derive(Debug, Copy, Clone, PartialEq, Eq, Structural)]
pub struct WholeDemands {
    pub mode: ControlMode,
    pub demand0: i32,
    pub demand1: i32,
}

/// The upper sixteen bits of a base address, moved to bits 8 to 23.
pub open spec fn high_bits_value(base_id: i32) -> u32 {
    ((base_id as u32) >> 16) << 8
}

/// The identifier that a bare device number becomes in `Follower` mode: the
/// number, without its fraction, under the caller's own upper address bits.
pub open spec fn follower_target(base_id: i32, demand0: Demand) -> u32
    recommends
        demand0.is_device_number(),
{
    high_bits_value(base_id) | (demand0.to_u32_value() as u32)
}

/// `sent` is the command that `set` issues for these arguments on the device
/// with base address `base_id`.
///
/// In `Follower` mode a first demand from 0 to 62 is a bare device number and
/// is sent as the identifier made from it; any other first demand is taken
/// for an identifier already made and is sent as it is, bit for bit.
pub open spec fn is_set_command(
    base_id: i32,
    mode: ControlMode,
    demand0: Demand,
    demand1_type: DemandType,
    demand1: Demand,
    sent: Command,
) -> bool {
    match mode {
        ControlMode::Follower => {
            &&& sent is Apply
            &&& sent->Apply_0.mode == ControlMode::Follower
            &&& demand0.is_device_number() ==> {
                &&& sent->Apply_0.demand0.int_value() == Some(
                    follower_target(base_id, demand0) as int,
                )
                &&& !sent->Apply_0.demand0.negative()
            }
            &&& !demand0.is_device_number() ==> sent->Apply_0.demand0 == demand0
            &&& sent->Apply_0.demand1 == demand1
            &&& sent->Apply_0.demand1_type == demand1_type
        },
        ControlMode::Current => sent == Command::ApplyWhole(
            (WholeDemands {
                mode: ControlMode::Current,
                demand0: demand0.milli_value() as i32,
                demand1: 0,
            }),
        ),
        ControlMode::Disabled => sent == Command::ApplyWhole(
            (WholeDemands { mode: ControlMode::Disabled, demand0: 0, demand1: 0 }),
        ),
        _ => sent == Command::Apply((Demands { mode, demand0, demand1, demand1_type })),
    }
}

/// The demand type that goes with a kind of following.
pub open spec fn follower_demand_type(follower_type: FollowerType) -> DemandType {
    match follower_type {
        FollowerType::PercentOutput => DemandType::Neutral,
        FollowerType::AuxOutput1 => DemandType::AuxPID,
    }
}

/// The upper sixteen bits of `base_id`, moved to bits 8 to 23.
pub fn high_bits(base_id: i32) -> (r: u32)
    ensures
        r == high_bits_value(base_id),
{
    ((base_id as u32) >> 16) << 8
}

/// The command for `mode` with the two demands, on the device with base address
/// `base_id`. Nothing is rejected here: a demand out of range for its mode is
/// sent on, and the controller answers for it.
pub fn encode_set(
    base_id: i32,
    mode: ControlMode,
    demand0: Demand,
    demand1_type: DemandType,
    demand1: Demand,
) -> (sent: Command)
    ensures
        is_set_command(base_id, mode, demand0, demand1_type, demand1, sent),
{
    match mode {
        ControlMode::Follower => {
            let first: Demand = if demand0.in_device_number_range() {
                Demand::from_u32(high_bits(base_id) | demand0.to_u32())
            } else {
                demand0
            };
            Command::Apply(Demands { mode, demand0: first, demand1, demand1_type })
        },
        ControlMode::Current => Command::ApplyWhole(
            WholeDemands { mode, demand0: demand0.milli_i32(), demand1: 0 },
        ),
        ControlMode::PercentOutput
        | ControlMode::Velocity
        | ControlMode::Position
        | ControlMode::MotionMagic
        | ControlMode::MotionProfile
        | ControlMode::MotionProfileArc => Command::Apply(
            Demands { mode, demand0, demand1, demand1_type },
        ),
        ControlMode::Disabled => Command::ApplyWhole(WholeDemands { mode, demand0: 0, demand1: 0 }),
    }
}

/// The identifier that following a master sends, from the master's 24-bit
/// form `id24`. It goes through the `Follower` encoding like any first demand:
/// from 0 to 62 it is taken for a bare device number and set under the
/// follower's own upper address bits, and any other is sent as it is.
pub open spec fn follow_target(base_id: i32, id24: i32) -> int {
    if 0 <= id24 <= MAX_DEVICE_NUMBER {
        (high_bits_value(base_id) | (id24 as u32)) as int
    } else {
        id24 as int
    }
}

/// `sent` is the command that `follow` issues on the device with base address
/// `base_id` for the master with base address `master_base_id`.
pub open spec fn is_follow_command(
    base_id: i32,
    master_base_id: i32,
    follower_type: FollowerType,
    sent: Command,
) -> bool {
    &&& sent is Apply
    &&& sent->Apply_0.mode == ControlMode::Follower
    &&& sent->Apply_0.demand0.int_value() == Some(
        follow_target(base_id, follower_id_value(master_base_id)),
    )
    &&& sent->Apply_0.demand0.negative() == (follow_target(
        base_id,
        follower_id_value(master_base_id),
    ) < 0)
    &&& sent->Apply_0.demand1.bits == 0
    &&& sent->Apply_0.demand1_type == follower_demand_type(follower_type)
}

/// The command that makes a device follow the master with base address
/// `master_base_id`: `Follower` mode, with the master's 24-bit form as first
/// demand. Whether the two devices are of families that can follow each other
/// is not looked at.
pub fn encode_follow(base_id: i32, master_base_id: i32, follower_type: FollowerType) -> (sent:
    Command)
    ensures
        is_follow_command(base_id, master_base_id, follower_type, sent),
{
    let id24: i32 = follower_id(master_base_id);
    let first: Demand = Demand::from_i32(id24);
    proof {
        first.lemma_whole_value(id24 as int);
    }
    match follower_type {
        FollowerType::PercentOutput => encode_set(
            base_id,
            ControlMode::Follower,
            first,
            DemandType::Neutral,
            Demand::zero(),
        ),
        FollowerType::AuxOutput1 => encode_set(
            base_id,
            ControlMode::Follower,
            first,
            DemandType::AuxPID,
            Demand::zero(),
        ),
    }
}

/// Following a master whose 24-bit form is no bare device number sends
/// exactly that form, whatever the follower's own address is.
pub proof fn lemma_follow_sends_master_id(base_id: i32, master_base_id: i32)
    requires
        !(0 <= follower_id_value(master_base_id) <= MAX_DEVICE_NUMBER),
    ensures
        follow_target(base_id, follower_id_value(master_base_id)) == follower_id_value(
            master_base_id,
        ),
{
}

/// Following a master of either family with a device number from 0 to 62 sends
/// the master's 24-bit form, whatever the follower's own address is.
pub proof fn lemma_follow_composed_master(base_id: i32, family: DeviceFamily, device_number: i32)
    requires
        valid_device_number(device_number),
    ensures
        follow_target(base_id, follower_id_value(base_address_value(family, device_number)))
            == follower_id_value(base_address_value(family, device_number)),
        follow_target(base_id, follower_id_value(base_address_value(family, device_number)))
            == family.tag_value() / 256 + device_number,
{
    lemma_follower_id_of_composed(family, device_number);
}

/// In `Current` mode the first demand is sent in milliamperes and the second
/// is sent as zero. Wherever a thousand times the amperes is a whole number
/// `n` within the 32-bit range, as for 0.5 A or -2.5 A, what is sent is exactly
/// `n`, sign kept.
pub proof fn lemma_current_sends_milliamperes(
    base_id: i32,
    demand0: Demand,
    demand1_type: DemandType,
    demand1: Demand,
    sent: Command,
    n: int,
)
    requires
        is_set_command(base_id, ControlMode::Current, demand0, demand1_type, demand1, sent),
        demand0.thousandfold_is(n),
        i32::MIN <= n <= i32::MAX,
    ensures
        sent == Command::ApplyWhole(
            (WholeDemands { mode: ControlMode::Current, demand0: n as i32, demand1: 0 }),
        ),
{
    demand0.lemma_milli_exact(n);
}

/// In `Current` mode the second demand and its type play no part: two calls
/// that differ only in them, on any two devices, send the same command.
pub proof fn lemma_current_ignores_second_demand(
    base_a: i32,
    base_b: i32,
    demand0: Demand,
    type_a: DemandType,
    demand_a: Demand,
    type_b: DemandType,
    demand_b: Demand,
    sent_a: Command,
    sent_b: Command,
)
    requires
        is_set_command(base_a, ControlMode::Current, demand0, type_a, demand_a, sent_a),
        is_set_command(base_b, ControlMode::Current, demand0, type_b, demand_b, sent_b),
    ensures
        sent_a == sent_b,
{
}

/// In `Disabled` mode both demands are sent as zero, whatever is given, and on
/// any device.
pub proof fn lemma_disabled_sends_zero(
    base_id: i32,
    demand0: Demand,
    demand1_type: DemandType,
    demand1: Demand,
    sent: Command,
)
    requires
        is_set_command(base_id, ControlMode::Disabled, demand0, demand1_type, demand1, sent),
    ensures
        sent == Command::ApplyWhole(
            (WholeDemands { mode: ControlMode::Disabled, demand0: 0, demand1: 0 }),
        ),
{
}

/// In `Follower` mode what is sent depends on the caller's address only
/// through its upper sixteen bits: two callers that agree on them send the
/// same command for the same arguments, whatever their lower bits are.
pub proof fn lemma_follower_ignores_low_bits(
    base_a: i32,
    base_b: i32,
    demand0: Demand,
    demand1_type: DemandType,
    demand1: Demand,
    sent_a: Command,
    sent_b: Command,
)
    requires
        base_a >> 16 == base_b >> 16,
        is_set_command(base_a, ControlMode::Follower, demand0, demand1_type, demand1, sent_a),
        is_set_command(base_b, ControlMode::Follower, demand0, demand1_type, demand1, sent_b),
    ensures
        follower_target(base_a, demand0) == follower_target(base_b, demand0),
        sent_a == sent_b,
{
    assert(((base_a as u32) >> 16) << 8 == ((base_b as u32) >> 16) << 8) by (bit_vector)
        requires
            base_a >> 16 == base_b >> 16,
    ;
    if demand0.is_device_number() {
        sent_a->Apply_0.demand0.lemma_whole_is_unique(sent_b->Apply_0.demand0);
    }
}

/// In `Follower` mode a first demand outside 0 to 62 is sent unchanged, on
/// every device: negative, fractional, beyond any range or not a number, it
/// goes out bit for bit, and the second demand and its type with it.
pub proof fn lemma_follower_passes_identifier(
    base_id: i32,
    demand0: Demand,
    demand1_type: DemandType,
    demand1: Demand,
    sent: Command,
)
    requires
        !demand0.is_device_number(),
        is_set_command(base_id, ControlMode::Follower, demand0, demand1_type, demand1, sent),
    ensures
        sent == Command::Apply(
            (Demands { mode: ControlMode::Follower, demand0, demand1, demand1_type }),
        ),
{
}

/// For a whole device number `n` from 0 to 62 the identifier sent in `Follower`
/// mode is the caller's upper address bits over `n`.
pub proof fn lemma_follower_device_number(base_id: i32, demand0: Demand, n: int)
    requires
        demand0.int_value() == Some(n),
        0 <= n <= MAX_DEVICE_NUMBER,
    ensures
        demand0.is_device_number(),
        follower_target(base_id, demand0) == high_bits_value(base_id) | (n as u32),
{
    demand0.lemma_whole_value(n);
}

} // verus!
