use motorctl::control::{
    encode_follow, encode_set, high_bits, Command, ControlMode, DemandType, Demands,
    FollowerType, WholeDemands,
};
use motorctl::controller::{BaseMotorController, Device, TalonSRX, VictorSPX};
use motorctl::demand::Demand;

fn d(x: f64) -> Demand {
    Demand::from_bits(x.to_bits())
}

fn value(x: Demand) -> f64 {
    f64::from_bits(x.to_bits())
}

/// The first demand sent in follower mode, as floating-point arithmetic gives
/// it: a device number goes under the upper address bits, anything else is
/// left alone.
fn follower_by_floats(base_id: i32, demand0: f64) -> f64 {
    if 0.0 <= demand0 && demand0 <= 62.0 {
        (((base_id as u32 >> 16) << 8) | (demand0 as u32)) as f64
    } else {
        demand0
    }
}

#[test]
fn follower_with_bare_device_number() {
    let talon = TalonSRX::new(9);
    let sent = talon.set(ControlMode::Follower, d(7.0), DemandType::Neutral, d(0.0));
    assert_eq!(
        sent,
        Command::Apply(Demands {
            mode: ControlMode::Follower,
            demand0: d(132103.0),
            demand1: d(0.0),
            demand1_type: DemandType::Neutral,
        })
    );
    let victor = VictorSPX::new(9);
    match victor.set(ControlMode::Follower, d(62.0), DemandType::AuxPID, d(0.25)) {
        Command::Apply(x) => {
            assert_eq!(value(x.demand0), (0x01_0400 + 62) as f64);
            assert_eq!(value(x.demand1), 0.25);
            assert_eq!(x.demand1_type, DemandType::AuxPID);
            assert_eq!(x.mode, ControlMode::Follower);
        }
        other => panic!("{:?}", other),
    }
}

#[test]
fn follower_with_identifier_passes_through() {
    let talon = TalonSRX::new(9);
    match talon.set(ControlMode::Follower, d(66567.0), DemandType::Neutral, d(0.0)) {
        Command::Apply(x) => assert_eq!(value(x.demand0), 66567.0),
        other => panic!("{:?}", other),
    }
    match talon.set(ControlMode::Follower, d(63.0), DemandType::Neutral, d(0.0)) {
        Command::Apply(x) => assert_eq!(value(x.demand0), 63.0),
        other => panic!("{:?}", other),
    }
}

#[test]
fn follower_passes_an_identifier_through_unchanged() {
    let talon = TalonSRX::new(9);
    for x in [
        -1.0,
        -0.5,
        100.5,
        62.5,
        63.0,
        132101.0,
        1e10,
        -1e10,
        4294967296.5,
        f64::INFINITY,
        f64::NEG_INFINITY,
        f64::MIN_POSITIVE * -1.0,
    ] {
        let sent = talon.set(ControlMode::Follower, d(x), DemandType::AuxPID, d(3.5));
        assert_eq!(
            sent,
            Command::Apply(Demands {
                mode: ControlMode::Follower,
                demand0: d(x),
                demand1: d(3.5),
                demand1_type: DemandType::AuxPID,
            }),
            "{}",
            x
        );
        // the caller's own address plays no part
        assert_eq!(
            sent,
            VictorSPX::new(40).set(ControlMode::Follower, d(x), DemandType::AuxPID, d(3.5))
        );
    }
    let nan = Demand::from_bits(0xfff8_0000_0000_0abc);
    match talon.set(ControlMode::Follower, nan, DemandType::Neutral, d(0.0)) {
        Command::Apply(x) => assert_eq!(x.demand0.to_bits(), 0xfff8_0000_0000_0abc),
        other => panic!("{:?}", other),
    }
}

#[test]
fn follower_edges_of_the_device_number_range() {
    let base = 0x0204_0009;
    for x in [
        0.0, -0.0, 0.5, 1.0, 61.5, 62.0, 62.0000001, 62.5, 63.0, -0.5, -1.0, 1e10, -1e10,
        f64::NAN, f64::INFINITY, f64::NEG_INFINITY, 4294967295.0, 4294967296.0, 132103.9,
    ] {
        match encode_set(base, ControlMode::Follower, d(x), DemandType::Neutral, d(0.0)) {
            Command::Apply(sent) => {
                assert_eq!(
                    sent.demand0.to_bits(),
                    follower_by_floats(base, x).to_bits(),
                    "{}",
                    x
                );
            }
            other => panic!("{:?}", other),
        }
    }
}

#[test]
fn follower_depends_only_on_the_high_address_bits() {
    let neutral = DemandType::Neutral;
    for n in 0..=62 {
        let x = d(n as f64);
        let a = encode_set(0x0204_0000, ControlMode::Follower, x, neutral, d(0.0));
        let b = encode_set(0x0204_ffff, ControlMode::Follower, x, neutral, d(0.0));
        let c = encode_set(0x0204_003e, ControlMode::Follower, x, neutral, d(0.0));
        assert_eq!(a, b);
        assert_eq!(a, c);
        let other = encode_set(0x0104_0000, ControlMode::Follower, x, neutral, d(0.0));
        assert_ne!(a, other);
    }
    assert_eq!(high_bits(0x0204_0009), 0x02_0400);
    assert_eq!(high_bits(0x0104_ffff), 0x01_0400);
    assert_eq!(high_bits(-1), 0xff_ff00);
}

#[test]
fn current_is_sent_in_milliamperes() {
    let talon = TalonSRX::new(1);
    for (x, expected) in [
        (1.5, 1500),
        (-1.5, -1500),
        (0.0, 0),
        (40.0, 40000),
        (-40.0, -40000),
        (0.0004, 0),
        (2.0005, 2000),
        (1e9, i32::MAX),
        (-1e9, i32::MIN),
    ] {
        let sent = talon.set(ControlMode::Current, d(x), DemandType::AuxPID, d(9.0));
        assert_eq!(
            sent,
            Command::ApplyWhole(WholeDemands {
                mode: ControlMode::Current,
                demand0: expected,
                demand1: 0
            }),
            "{}",
            x
        );
        assert_eq!(expected, (1000.0 * x) as i32);
    }
}

#[test]
fn current_is_exact_where_the_thousandfold_is_whole() {
    let talon = TalonSRX::new(1);
    for (x, expected) in [
        (0.5, 500),
        (-2.5, -2500),
        (0.125, 125),
        (-0.375, -375),
        (2147483.5, 2147483500),
        (-2147483.5, -2147483500),
        (-0.0, 0),
        (1234.625, 1234625),
    ] {
        for (dt, d1) in [(DemandType::Neutral, 0.0), (DemandType::ArbitraryFeedForward, -7.0)] {
            let sent = talon.set(ControlMode::Current, d(x), dt, d(d1));
            assert_eq!(
                sent,
                Command::ApplyWhole(WholeDemands {
                    mode: ControlMode::Current,
                    demand0: expected,
                    demand1: 0
                }),
                "{}",
                x
            );
        }
    }
}

#[test]
fn disabled_sends_zeros() {
    let victor = VictorSPX::new(3);
    for x in [0.0, 1.0, -7.5, f64::NAN, 1e300] {
        let sent = victor.set(ControlMode::Disabled, d(x), DemandType::ArbitraryFeedForward, d(x));
        assert_eq!(
            sent,
            Command::ApplyWhole(WholeDemands {
                mode: ControlMode::Disabled,
                demand0: 0,
                demand1: 0
            })
        );
    }
    assert_eq!(
        victor.neutral_output(),
        Command::ApplyWhole(WholeDemands { mode: ControlMode::Disabled, demand0: 0, demand1: 0 })
    );
}

#[test]
fn other_modes_pass_everything_through() {
    let talon = TalonSRX::new(4);
    for mode in [
        ControlMode::PercentOutput,
        ControlMode::Velocity,
        ControlMode::Position,
        ControlMode::MotionMagic,
        ControlMode::MotionProfile,
        ControlMode::MotionProfileArc,
    ] {
        for dt in [DemandType::Neutral, DemandType::AuxPID, DemandType::ArbitraryFeedForward] {
            let sent = talon.set(mode, d(-0.75), dt, d(1234.5));
            assert_eq!(
                sent,
                Command::Apply(Demands {
                    mode,
                    demand0: d(-0.75),
                    demand1: d(1234.5),
                    demand1_type: dt
                })
            );
        }
    }
    // a NaN is handed on bit for bit
    let nan = Demand::from_bits(0x7ff8_0000_0000_1234);
    match talon.set(ControlMode::PercentOutput, nan, DemandType::Neutral, nan) {
        Command::Apply(x) => {
            assert_eq!(x.demand0.to_bits(), 0x7ff8_0000_0000_1234);
            assert_eq!(x.demand1.to_bits(), 0x7ff8_0000_0000_1234);
        }
        other => panic!("{:?}", other),
    }
}

#[test]
fn follow_sends_the_masters_identifier() {
    for follower_number in [0, 1, 30, 62] {
        for master_number in 0..=62 {
            let follower = VictorSPX::new(follower_number);
            let master = TalonSRX::new(master_number);
            let a = master.get_base_id();
            let expected = ((a >> 16) << 8) | (a & 0xff);
            match follower.follow(&master, FollowerType::PercentOutput) {
                Command::Apply(x) => {
                    assert_eq!(value(x.demand0), expected as f64);
                    assert_eq!(x.mode, ControlMode::Follower);
                    assert_eq!(x.demand1_type, DemandType::Neutral);
                    assert_eq!(x.demand1.to_bits(), 0);
                }
                other => panic!("{:?}", other),
            }
            match master.follow(&follower, FollowerType::AuxOutput1) {
                Command::Apply(x) => {
                    assert_eq!(value(x.demand0), (0x01_0400 + follower_number) as f64);
                    assert_eq!(x.demand1_type, DemandType::AuxPID);
                }
                other => panic!("{:?}", other),
            }
        }
    }
}

#[test]
fn follow_exact_identifier() {
    let sent = TalonSRX::new(1).follow(&TalonSRX::new(5), FollowerType::PercentOutput);
    assert_eq!(
        sent,
        Command::Apply(Demands {
            mode: ControlMode::Follower,
            demand0: d(132101.0),
            demand1: d(0.0),
            demand1_type: DemandType::Neutral,
        })
    );
}

#[test]
fn follow_of_an_address_without_tag_goes_through_the_encoding() {
    // a master address of 5 has the 24-bit form 5, which the encoding takes
    // for a bare device number
    match encode_follow(0x0204_0001, 5, FollowerType::PercentOutput) {
        Command::Apply(x) => assert_eq!(value(x.demand0), (0x02_0400 + 5) as f64),
        other => panic!("{:?}", other),
    }
    // a negative 24-bit form is sent as it is
    match encode_follow(0x0204_0001, -1, FollowerType::PercentOutput) {
        Command::Apply(x) => assert_eq!(value(x.demand0), -1.0),
        other => panic!("{:?}", other),
    }
    // the address with only its top bit set has the 24-bit form -(2^23)
    match encode_follow(0x0204_0001, i32::MIN, FollowerType::AuxOutput1) {
        Command::Apply(x) => assert_eq!(value(x.demand0), -8388608.0),
        other => panic!("{:?}", other),
    }
}

#[test]
fn controller_identity() {
    let talon = TalonSRX::new(17);
    assert_eq!(talon.get_base_id(), 0x0204_0011);
    assert_eq!(talon.get_device_id(), 17);
    let victor = VictorSPX::new(17);
    assert_eq!(victor.get_base_id(), 0x0104_0011);
    assert_eq!(victor.get_device_id(), 17);
    assert!(TalonSRX::new(17) == talon);
    assert!(TalonSRX::new(18) != talon);
}
