use motorctl::controller::{BaseMotorController, Device, TalonSRX};
use motorctl::demand::Demand;
use motorctl::error::{checked, ErrorCode};
use motorctl::motion::{
    MotionProfileStatus, RawMotionProfileStatus, SetValueMotionProfile, TrajectoryDuration,
    TrajectoryPoint,
};
use motorctl::profile_buffer::MotionProfileBuffer;
use motorctl::reply::Reply;
use motorctl::request::Request;

fn d(x: f64) -> Demand {
    Demand::from_bits(x.to_bits())
}

fn point(i: u32) -> TrajectoryPoint {
    TrajectoryPoint {
        position: d(i as f64 * 1.5),
        velocity: d(-(i as f64)),
        auxiliary_pos: d(0.25),
        profile_slot_select_0: i % 4,
        profile_slot_select_1: (i + 1) % 4,
        is_last_point: false,
        zero_pos: i == 0,
        time_dur: TrajectoryDuration::T10ms,
    }
}

fn status(b: &MotionProfileBuffer) -> MotionProfileStatus {
    b.get_new_motion_profile_status().unwrap()
}

#[test]
fn new_buffer_is_empty_and_idle() {
    let b = MotionProfileBuffer::new(128, 8);
    assert_eq!(
        status(&b),
        MotionProfileStatus {
            top_buffer_rem: 128,
            top_buffer_cnt: 0,
            btm_buffer_cnt: 0,
            has_underrun: false,
            is_underrun: false,
            active_point_valid: false,
            is_last: false,
            profile_slot_select_0: 0,
            profile_slot_select_1: 0,
            output_enable: SetValueMotionProfile::Disable,
            time_dur_ms: 0,
        }
    );
    assert_eq!(b.get_motion_profile_top_level_buffer_count(), Ok(0));
    assert_eq!(b.is_motion_profile_top_level_buffer_full(), Ok(false));
    assert_eq!(b.top_point(0), None);
    assert_eq!(b.bottom_point(0), None);
    assert_eq!(b.active_point(), None);
}

#[test]
fn push_appends_to_the_top_buffer_only() {
    let mut b = MotionProfileBuffer::new(4, 2);
    for i in 0..6 {
        assert!(b.push_motion_profile_trajectory(&point(i)).is_ok());
        assert_eq!(b.get_motion_profile_top_level_buffer_count(), Ok(i as i32 + 1));
        assert_eq!(b.is_motion_profile_top_level_buffer_full(), Ok(i + 1 >= 4));
    }
    let s = status(&b);
    assert_eq!(s.top_buffer_cnt, 6);
    assert_eq!(s.top_buffer_rem, 0);
    assert_eq!(s.btm_buffer_cnt, 0);
    for i in 0..6 {
        assert_eq!(b.top_point(i as usize), Some(point(i)));
    }
    assert_eq!(b.top_point(6), None);
}

#[test]
fn process_moves_as_many_as_fit_in_order() {
    let mut b = MotionProfileBuffer::new(100, 3);
    for i in 0..5 {
        b.push_motion_profile_trajectory(&point(i));
    }
    b.process_motion_profile_buffer();
    let s = status(&b);
    assert_eq!(s.top_buffer_cnt, 2);
    assert_eq!(s.btm_buffer_cnt, 3);
    assert_eq!(s.top_buffer_rem, 98);
    assert_eq!(b.bottom_point(0), Some(point(0)));
    assert_eq!(b.bottom_point(1), Some(point(1)));
    assert_eq!(b.bottom_point(2), Some(point(2)));
    assert_eq!(b.top_point(0), Some(point(3)));
    assert_eq!(b.top_point(1), Some(point(4)));
    // no room: nothing moves
    b.process_motion_profile_buffer();
    assert_eq!(status(&b).top_buffer_cnt, 2);
    assert_eq!(status(&b).btm_buffer_cnt, 3);
}

#[test]
fn draining_n_points_keeps_the_bottom_within_capacity() {
    for capacity in 1..6usize {
        for n in 0..20u32 {
            let mut b = MotionProfileBuffer::new(1000, capacity);
            for i in 0..n {
                b.push_motion_profile_trajectory(&point(i));
            }
            let mut drained = 0;
            let mut taken: Vec<TrajectoryPoint> = Vec::new();
            let mut rounds = 0;
            while b.get_motion_profile_top_level_buffer_count() != Ok(0) {
                let before = status(&b).top_buffer_cnt;
                b.process_motion_profile_buffer();
                let s = status(&b);
                assert!(s.btm_buffer_cnt as usize <= capacity);
                drained += before - s.top_buffer_cnt;
                b.executer_step();
                assert!(status(&b).btm_buffer_cnt as usize <= capacity);
                taken.push(b.active_point().unwrap());
                rounds += 1;
                assert!(rounds <= 100);
            }
            assert_eq!(drained as u32, n);
            // what is left in the bottom buffer follows what was taken
            let mut i = 0;
            while let Some(p) = b.bottom_point(i) {
                taken.push(p);
                i += 1;
            }
            assert_eq!(taken.len() as u32, n);
            for (i, p) in taken.iter().enumerate() {
                assert_eq!(*p, point(i as u32));
            }
        }
    }
}

#[test]
fn bottom_capacity_zero_moves_nothing() {
    let mut b = MotionProfileBuffer::new(10, 0);
    b.push_motion_profile_trajectory(&point(1));
    b.process_motion_profile_buffer();
    assert_eq!(status(&b).top_buffer_cnt, 1);
    assert_eq!(status(&b).btm_buffer_cnt, 0);
}

#[test]
fn pushed_point_reads_back_field_for_field() {
    let p = TrajectoryPoint {
        position: d(1234.5678),
        velocity: d(-0.001),
        auxiliary_pos: d(359.75),
        profile_slot_select_0: 2,
        profile_slot_select_1: 3,
        is_last_point: true,
        zero_pos: true,
        time_dur: TrajectoryDuration::T40ms,
    };
    let mut b = MotionProfileBuffer::new(16, 4);
    b.push_motion_profile_trajectory(&p);
    let top = b.top_point(0).unwrap();
    assert_eq!(f64::from_bits(top.position.to_bits()), 1234.5678);
    b.process_motion_profile_buffer();
    let q = b.bottom_point(0).unwrap();
    assert_eq!(f64::from_bits(q.position.to_bits()), 1234.5678);
    assert_eq!(f64::from_bits(q.velocity.to_bits()), -0.001);
    assert_eq!(f64::from_bits(q.auxiliary_pos.to_bits()), 359.75);
    assert_eq!(q.profile_slot_select_0, 2);
    assert_eq!(q.profile_slot_select_1, 3);
    assert!(q.is_last_point);
    assert!(q.zero_pos);
    assert_eq!(q.time_dur, TrajectoryDuration::T40ms);
    b.executer_step();
    assert_eq!(b.active_point(), Some(p));
    let s = status(&b);
    assert!(s.active_point_valid);
    assert!(s.is_last);
    assert_eq!(s.profile_slot_select_0, 2);
    assert_eq!(s.profile_slot_select_1, 3);
    assert_eq!(s.time_dur_ms, 40);
    assert_eq!(s.btm_buffer_cnt, 0);
}

#[test]
fn starved_executer_is_in_underrun_until_fed() {
    let mut b = MotionProfileBuffer::new(16, 4);
    b.executer_step();
    let s = status(&b);
    assert!(s.is_underrun);
    assert!(s.has_underrun);
    assert!(!s.active_point_valid);
    b.push_motion_profile_trajectory(&point(0));
    b.process_motion_profile_buffer();
    b.executer_step();
    let s = status(&b);
    assert!(!s.is_underrun);
    assert!(s.has_underrun);
    assert!(s.active_point_valid);
}

#[test]
fn clearing_has_underrun_leaves_is_underrun() {
    let mut b = MotionProfileBuffer::new(16, 4);
    b.executer_step();
    assert!(status(&b).has_underrun);
    assert!(status(&b).is_underrun);
    assert!(b.clear_motion_profile_has_underrun(0).is_ok());
    let s = status(&b);
    assert!(!s.has_underrun);
    assert!(s.is_underrun);
    // and with the executer fed
    b.push_motion_profile_trajectory(&point(0));
    b.process_motion_profile_buffer();
    b.executer_step();
    b.executer_step();
    assert!(status(&b).has_underrun);
    b.executer_step();
    b.push_motion_profile_trajectory(&point(1));
    b.process_motion_profile_buffer();
    b.executer_step();
    assert!(!status(&b).is_underrun);
    assert!(b.clear_motion_profile_has_underrun(50).is_ok());
    let s = status(&b);
    assert!(!s.has_underrun);
    assert!(!s.is_underrun);
}

#[test]
fn last_point_is_held_without_underrun() {
    let mut b = MotionProfileBuffer::new(16, 4);
    let mut last = point(0);
    last.is_last_point = true;
    b.push_motion_profile_trajectory(&last);
    b.push_motion_profile_trajectory(&point(1));
    b.process_motion_profile_buffer();
    b.executer_step();
    b.executer_step();
    b.executer_step();
    let s = status(&b);
    assert!(s.is_last);
    assert!(!s.is_underrun);
    assert!(!s.has_underrun);
    assert_eq!(b.active_point(), Some(last));
    assert_eq!(s.btm_buffer_cnt, 1);
}

#[test]
fn clear_trajectories_empties_both_buffers() {
    let mut b = MotionProfileBuffer::new(16, 2);
    for i in 0..5 {
        b.push_motion_profile_trajectory(&point(i));
    }
    b.process_motion_profile_buffer();
    b.executer_step();
    b.executer_step();
    b.executer_step();
    assert!(status(&b).has_underrun);
    assert!(b.clear_motion_profile_trajectories().is_ok());
    let s = status(&b);
    assert_eq!(s.top_buffer_cnt, 0);
    assert_eq!(s.btm_buffer_cnt, 0);
    assert_eq!(s.top_buffer_rem, 16);
    assert!(s.has_underrun);
    assert!(s.active_point_valid);
}

#[test]
fn status_is_filled_in_place() {
    let mut b = MotionProfileBuffer::new(16, 2);
    b.set_output_enable(SetValueMotionProfile::Enable);
    b.push_motion_profile_trajectory(&point(3));
    let mut s = MotionProfileStatus::default();
    s.top_buffer_cnt = 99;
    s.has_underrun = true;
    assert!(b.get_motion_profile_status(&mut s).is_ok());
    assert_eq!(s.top_buffer_cnt, 1);
    assert_eq!(s.top_buffer_rem, 15);
    assert!(!s.has_underrun);
    assert_eq!(s.output_enable, SetValueMotionProfile::Enable);
    assert_eq!(Ok(s), b.get_new_motion_profile_status());
}

#[test]
fn trajectory_durations_in_milliseconds() {
    assert_eq!(TrajectoryDuration::T0ms.millis(), 0);
    assert_eq!(TrajectoryDuration::T5ms.millis(), 5);
    assert_eq!(TrajectoryDuration::T10ms.millis(), 10);
    assert_eq!(TrajectoryDuration::T20ms.millis(), 20);
    assert_eq!(TrajectoryDuration::T30ms.millis(), 30);
    assert_eq!(TrajectoryDuration::T40ms.millis(), 40);
    assert_eq!(TrajectoryDuration::T50ms.millis(), 50);
    assert_eq!(TrajectoryDuration::T100ms.millis(), 100);
}

#[test]
fn output_state_from_its_number() {
    assert_eq!(SetValueMotionProfile::from_raw(0), SetValueMotionProfile::Disable);
    assert_eq!(SetValueMotionProfile::from_raw(1), SetValueMotionProfile::Enable);
    assert_eq!(SetValueMotionProfile::from_raw(2), SetValueMotionProfile::Hold);
    assert_eq!(SetValueMotionProfile::from_raw(3), SetValueMotionProfile::Invalid);
    assert_eq!(SetValueMotionProfile::from_raw(-1), SetValueMotionProfile::Invalid);
}

fn raw() -> RawMotionProfileStatus {
    RawMotionProfileStatus {
        top_buffer_rem: 500,
        top_buffer_cnt: 12,
        btm_buffer_cnt: 7,
        has_underrun: true,
        is_underrun: false,
        active_point_valid: true,
        is_last: false,
        profile_slot_select_0: 1,
        output_enable: 2,
        time_dur_ms: 20,
        profile_slot_select_1: 3,
    }
}

fn decoded() -> MotionProfileStatus {
    MotionProfileStatus {
        top_buffer_rem: 500,
        top_buffer_cnt: 12,
        btm_buffer_cnt: 7,
        has_underrun: true,
        is_underrun: false,
        active_point_valid: true,
        is_last: false,
        profile_slot_select_0: 1,
        profile_slot_select_1: 3,
        output_enable: SetValueMotionProfile::Hold,
        time_dur_ms: 20,
    }
}

#[test]
fn report_decodes_whole_or_not_at_all() {
    assert_eq!(MotionProfileStatus::from_report(raw(), ErrorCode::OK), Ok(decoded()));
    assert_eq!(
        MotionProfileStatus::from_report(raw(), ErrorCode::RxTimeout),
        Err(ErrorCode::RxTimeout)
    );
    let mut s = MotionProfileStatus::default();
    assert_eq!(s.fill(raw(), ErrorCode::BufferFull), ErrorCode::BufferFull);
    assert_eq!(s, decoded());
}

#[test]
fn checked_hands_on_value_or_code() {
    assert_eq!(checked(ErrorCode::OK, 42), Ok(42));
    assert_eq!(checked(ErrorCode::OK, 7), Ok(7));
    assert_eq!(checked(ErrorCode::TxFailed, 42), Err(ErrorCode::TxFailed));
    assert_eq!(checked(ErrorCode::BufferFull, 42), Err(ErrorCode::BufferFull));
    assert!(ErrorCode::OK.is_ok());
    assert!(!ErrorCode::OK.is_err());
    assert!(!ErrorCode::CAN_MSG_STALE.is_ok());
    assert!(ErrorCode::CAN_MSG_STALE.is_err());
    assert_eq!(ErrorCode::OK.code(), 0);
    assert_eq!(ErrorCode::OK.into_res(), Ok(()));
    assert_eq!(ErrorCode::RxTimeout.into_res(), Err(ErrorCode::RxTimeout));
}

#[test]
fn buffer_answers_the_requests_that_concern_it() {
    let talon = TalonSRX::new(3);
    let mut b = MotionProfileBuffer::new(4, 1);
    let p = point(9);
    assert_eq!(
        b.answer(talon.push_motion_profile_trajectory(&p)),
        Some(Reply::Code(ErrorCode::OK))
    );
    assert_eq!(
        b.answer(talon.push_motion_profile_trajectory(&point(10))),
        Some(Reply::Code(ErrorCode::OK))
    );
    assert_eq!(
        b.answer_whole(talon.get_motion_profile_top_level_buffer_count()),
        Some(Ok(2))
    );
    assert_eq!(
        b.answer_flag(talon.is_motion_profile_top_level_buffer_full()),
        Some(Ok(false))
    );
    assert_eq!(b.answer(talon.process_motion_profile_buffer()), Some(Reply::Done));
    assert_eq!(b.bottom_point(0), Some(p));
    match b.answer_status(talon.get_motion_profile_status()) {
        Ok(s) => {
            assert_eq!(s.top_buffer_cnt, 1);
            assert_eq!(s.btm_buffer_cnt, 1);
            assert_eq!(s.top_buffer_rem, 3);
        }
        other => panic!("{:?}", other),
    }
    // asking changes nothing
    assert_eq!(b.get_motion_profile_top_level_buffer_count(), Ok(1));
    assert_eq!(b.bottom_point(0), Some(p));
    b.executer_step();
    b.executer_step();
    assert!(b.get_new_motion_profile_status().unwrap().has_underrun);
    assert!(b.answer_status(talon.get_motion_profile_status()).unwrap().has_underrun);
    assert_eq!(
        b.answer(talon.clear_motion_profile_has_underrun(10)),
        Some(Reply::Code(ErrorCode::OK))
    );
    let s = b.get_new_motion_profile_status().unwrap();
    assert!(!s.has_underrun);
    assert!(s.is_underrun);
    assert_eq!(
        b.answer(talon.clear_motion_profile_trajectories()),
        Some(Reply::Code(ErrorCode::OK))
    );
    assert_eq!(b.get_motion_profile_top_level_buffer_count(), Ok(0));
    // what is none of the buffers' business
    assert_eq!(b.answer(talon.get_last_error()), None);
    assert_eq!(b.answer(Request::SetInverted { invert: true }), None);
    assert_eq!(b.answer_whole(talon.get_faults()), None);
    assert_eq!(b.answer_flag(talon.has_reset_occurred()), None);
    assert_eq!(b.active_point(), Some(p));
}

#[test]
fn reply_carries_a_code() {
    let bad = ErrorCode::InvalidParamValue;
    assert_eq!(Reply::Done.code(), ErrorCode::OK);
    assert_eq!(Reply::Code(bad).code(), bad);
    assert_eq!(Reply::Code(ErrorCode::OK).code(), ErrorCode::OK);
}

#[test]
fn a_number_that_names_no_code_is_a_general_error() {
    assert_eq!(ErrorCode::from_number(0), ErrorCode::OK);
    assert_eq!(ErrorCode::from_number(-3), ErrorCode::RxTimeout);
    assert_eq!(ErrorCode::from_number(110), ErrorCode::MotProfFirmThreshold2);
    assert_eq!(ErrorCode::from_number(2), ErrorCode::GeneralError);
    assert_eq!(ErrorCode::from_number(-100), ErrorCode::GeneralError);
    assert_eq!(ErrorCode::from_number(i32::MAX), ErrorCode::GeneralError);
    for number in -1000..=1000 {
        assert_eq!(ErrorCode::from_number(number).is_ok(), number == 0);
    }
}

#[test]
fn an_unwritten_report_keeps_the_snapshot() {
    let before = decoded();
    let raw = before.raw_before();
    assert_eq!(raw.output_enable, 0);
    assert_eq!(raw.top_buffer_rem, 500);
    assert_eq!(raw.profile_slot_select_1, 3);
    let mut s = before;
    assert_eq!(s.fill(raw, ErrorCode::RxTimeout), ErrorCode::RxTimeout);
    let mut expected = before;
    expected.output_enable = SetValueMotionProfile::Disable;
    assert_eq!(s, expected);
    // from nothing known: all zero, the output state disabled
    let fresh = MotionProfileStatus::default().raw_before();
    let mut zero = MotionProfileStatus::default();
    zero.output_enable = SetValueMotionProfile::Disable;
    assert_eq!(MotionProfileStatus::from_report(fresh, ErrorCode::OK), Ok(zero));
}

#[test]
fn snapshot_counts_are_the_buffer_lengths() {
    let mut b = MotionProfileBuffer::new(10, 3);
    for n in 0..8 {
        let s = status(&b);
        assert_eq!(s.top_buffer_cnt + s.btm_buffer_cnt, n);
        assert!(0 <= s.btm_buffer_cnt && s.btm_buffer_cnt <= 3);
        assert!(s.top_buffer_rem >= 0);
        assert_eq!(s.top_buffer_rem, 10 - s.top_buffer_cnt);
        // a snapshot moves nothing and clears nothing
        assert_eq!(status(&b), s);
        b.push_motion_profile_trajectory(&point(n as u32));
        b.process_motion_profile_buffer();
    }
    for _ in 0..4 {
        b.push_motion_profile_trajectory(&point(0));
    }
    let s = status(&b);
    assert_eq!(s.top_buffer_cnt, 9);
    assert_eq!(s.btm_buffer_cnt, 3);
    assert_eq!(s.top_buffer_rem, 1);
    b.push_motion_profile_trajectory(&point(0));
    b.push_motion_profile_trajectory(&point(0));
    assert_eq!(status(&b).top_buffer_rem, 0);
}

#[test]
fn status_codes_and_their_numbers() {
    let table = [
        (ErrorCode::OK, 0),
        (ErrorCode::CAN_MSG_STALE, 1),
        (ErrorCode::TxFailed, -1),
        (ErrorCode::InvalidParamValue, -2),
        (ErrorCode::RxTimeout, -3),
        (ErrorCode::TxTimeout, -4),
        (ErrorCode::UnexpectedArbId, -5),
        (ErrorCode::BufferFull, 6),
        (ErrorCode::CAN_OVERFLOW, -6),
        (ErrorCode::SensorNotPresent, -7),
        (ErrorCode::FirmwareTooOld, -8),
        (ErrorCode::CouldNotChangePeriod, -9),
        (ErrorCode::GeneralError, -100),
        (ErrorCode::SigNotUpdated, -200),
        (ErrorCode::NotAllPIDValuesUpdated, -201),
        (ErrorCode::InvalidHandle, -601),
        (ErrorCode::TalonFeatureRequiresHigherFirm, -701),
        (ErrorCode::PulseWidthSensorNotPresent, 10),
        (ErrorCode::GeneralWarning, 100),
        (ErrorCode::MotProfFirmThreshold2, 110),
    ];
    for (code, number) in table {
        assert_eq!(code.code(), number);
        assert_eq!(ErrorCode::from_code(number), Some(code));
    }
    let mut known = 0;
    for number in -1000..=1000 {
        if let Some(code) = ErrorCode::from_code(number) {
            assert_eq!(code.code(), number);
            known += 1;
        }
    }
    assert_eq!(known, 40);
    assert_eq!(ErrorCode::from_code(2), None);
    assert_eq!(ErrorCode::from_code(i32::MIN), None);
}

#[test]
fn defaults_are_zeroed() {
    let s = MotionProfileStatus::default();
    assert_eq!(s.top_buffer_rem, 0);
    assert_eq!(s.top_buffer_cnt, 0);
    assert_eq!(s.btm_buffer_cnt, 0);
    assert!(!s.has_underrun && !s.is_underrun && !s.active_point_valid && !s.is_last);
    assert_eq!(s.profile_slot_select_0, 0);
    assert_eq!(s.profile_slot_select_1, 0);
    assert_eq!(s.output_enable, SetValueMotionProfile::Invalid);
    assert_eq!(s.time_dur_ms, 0);
    assert_eq!(SetValueMotionProfile::default(), SetValueMotionProfile::Invalid);
    assert_eq!(TrajectoryDuration::default(), TrajectoryDuration::T0ms);
    let p = TrajectoryPoint::default();
    assert_eq!(p.position.to_bits(), 0);
    assert_eq!(p.velocity.to_bits(), 0);
    assert_eq!(p.auxiliary_pos.to_bits(), 0);
    assert_eq!(p.profile_slot_select_0, 0);
    assert_eq!(p.profile_slot_select_1, 0);
    assert!(!p.is_last_point && !p.zero_pos);
    assert_eq!(p.time_dur, TrajectoryDuration::T0ms);
}

#[test]
fn output_state_numbers() {
    for state in [
        SetValueMotionProfile::Disable,
        SetValueMotionProfile::Enable,
        SetValueMotionProfile::Hold,
    ] {
        assert_eq!(SetValueMotionProfile::from(state.code()), state);
    }
    assert_eq!(SetValueMotionProfile::Invalid.code(), -1);
    assert_eq!(SetValueMotionProfile::from(-1), SetValueMotionProfile::Invalid);
    assert_eq!(SetValueMotionProfile::from(7), SetValueMotionProfile::Invalid);
    assert_eq!(SetValueMotionProfile::Hold.code(), 2);
}
