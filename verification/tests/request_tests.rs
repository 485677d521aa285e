use motorctl::control::{Command, ControlMode, DemandType, FollowerType, WholeDemands};
use motorctl::controller::{BaseMotorController, Device, SensorCollection, TalonSRX, VictorSPX};
use motorctl::demand::Demand;
use motorctl::motion::{TrajectoryDuration, TrajectoryPoint};
use motorctl::request::{
    waits_for_confirmation, ControlFrame, FeedbackDevice, FlagQuery, LimitSwitchNormal,
    LimitSwitchSource, NeutralMode, ParamEnum, RealQuery, RemoteFeedbackDevice,
    RemoteLimitSwitchSource, RemoteSensorSource, Request, SensorTerm, StatusFrame,
    StatusFrameEnhanced, StatusQuery, VelocityMeasPeriod, WholeQuery,
};

fn d(x: f64) -> Demand {
    Demand::from_bits(x.to_bits())
}

#[test]
fn peak_current_duration_sends_the_peak_limit_request() {
    let talon = TalonSRX::new(2);
    assert_eq!(
        talon.config_peak_current_duration(250, 10),
        Request::ConfigPeakCurrentLimit { amps: 250, timeout_ms: 10 }
    );
    assert_eq!(
        talon.config_peak_current_limit(35, 10),
        Request::ConfigPeakCurrentLimit { amps: 35, timeout_ms: 10 }
    );
    assert_eq!(
        talon.config_continuous_current_limit(30, 0),
        Request::ConfigContinuousCurrentLimit { amps: 30, timeout_ms: 0 }
    );
    assert_eq!(talon.enable_current_limit(true), Request::EnableCurrentLimit { enable: true });
}

#[test]
fn aux_pid_polarity_is_a_parameter_request() {
    let victor = VictorSPX::new(2);
    assert_eq!(
        victor.config_aux_pid_polarity(true, 20),
        Request::ConfigSetParameter {
            param: ParamEnum::PIDLoopPolarity,
            value: d(1.0),
            sub_value: 0,
            ordinal: 1,
            timeout_ms: 20
        }
    );
    assert_eq!(
        victor.config_aux_pid_polarity(false, 0),
        Request::ConfigSetParameter {
            param: ParamEnum::PIDLoopPolarity,
            value: d(0.0),
            sub_value: 0,
            ordinal: 1,
            timeout_ms: 0
        }
    );
}

#[test]
fn integral_zone_is_sent_as_a_double() {
    let talon = TalonSRX::new(2);
    for izone in [0, 1, -1, 300, i32::MAX, i32::MIN] {
        assert_eq!(
            talon.config_integral_zone(1, izone, 5),
            Request::ConfigIntegralZone { slot_idx: 1, izone: d(izone as f64), timeout_ms: 5 }
        );
    }
}

#[test]
fn talon_limit_switch_source_assumes_device_zero() {
    let talon = TalonSRX::new(2);
    assert_eq!(
        talon.config_forward_limit_switch_source(
            LimitSwitchSource::RemoteTalonSRX,
            LimitSwitchNormal::NormallyOpen,
            10
        ),
        Request::ConfigForwardLimitSwitchSource {
            type_: LimitSwitchSource::RemoteTalonSRX,
            normal_open_or_close: LimitSwitchNormal::NormallyOpen,
            device_id: 0,
            timeout_ms: 10
        }
    );
    assert_eq!(
        talon.config_reverse_limit_switch_source(
            LimitSwitchSource::FeedbackConnector,
            LimitSwitchNormal::NormallyClosed,
            0
        ),
        Request::ConfigReverseLimitSwitchSource {
            type_: LimitSwitchSource::FeedbackConnector,
            normal_open_or_close: LimitSwitchNormal::NormallyClosed,
            device_id: 0,
            timeout_ms: 0
        }
    );
    let victor = VictorSPX::new(3);
    assert_eq!(
        victor.config_forward_limit_switch_source(
            RemoteLimitSwitchSource::RemoteCANifier,
            LimitSwitchNormal::Disabled,
            12,
            10
        ),
        Request::ConfigForwardRemoteLimitSwitchSource {
            type_: RemoteLimitSwitchSource::RemoteCANifier,
            normal_open_or_close: LimitSwitchNormal::Disabled,
            device_id: 12,
            timeout_ms: 10
        }
    );
    assert_eq!(
        victor.config_reverse_limit_switch_source(
            RemoteLimitSwitchSource::Deactivated,
            LimitSwitchNormal::NormallyOpen,
            4,
            0
        ),
        Request::ConfigReverseRemoteLimitSwitchSource {
            type_: RemoteLimitSwitchSource::Deactivated,
            normal_open_or_close: LimitSwitchNormal::NormallyOpen,
            device_id: 4,
            timeout_ms: 0
        }
    );
}

#[test]
fn talon_requests_of_its_own() {
    let talon = TalonSRX::new(2);
    assert_eq!(
        talon.config_selected_feedback_sensor(FeedbackDevice::QuadEncoder, 0, 10),
        Request::ConfigSelectedFeedbackSensor {
            feedback_device: FeedbackDevice::QuadEncoder,
            pid_idx: 0,
            timeout_ms: 10
        }
    );
    assert_eq!(
        talon.set_status_frame_period(StatusFrameEnhanced::Status_3_Quadrature, 20, 10),
        Request::SetStatusFramePeriodEnhanced {
            frame: StatusFrameEnhanced::Status_3_Quadrature,
            period_ms: 20,
            timeout_ms: 10
        }
    );
    assert_eq!(
        talon.get_status_frame_period(StatusFrameEnhanced::Status_8_PulseWidth, 10),
        WholeQuery::GetStatusFramePeriodEnhanced {
            frame: StatusFrameEnhanced::Status_8_PulseWidth,
            timeout_ms: 10
        }
    );
    assert_eq!(
        talon.config_velocity_measurement_period(VelocityMeasPeriod::Period_25Ms, 0),
        Request::ConfigVelocityMeasurementPeriod {
            period: VelocityMeasPeriod::Period_25Ms,
            timeout_ms: 0
        }
    );
    assert_eq!(
        talon.config_velocity_measurement_window(32, 0),
        Request::ConfigVelocityMeasurementWindow { window_size: 32, timeout_ms: 0 }
    );
}

#[test]
fn requests_of_both_families() {
    let victor = VictorSPX::new(8);
    assert_eq!(
        victor.set_neutral_mode(NeutralMode::Brake),
        Request::SetNeutralMode { neutral_mode: NeutralMode::Brake }
    );
    assert_eq!(victor.set_sensor_phase(true), Request::SetSensorPhase { phase_sensor: true });
    assert_eq!(victor.set_inverted(false), Request::SetInverted { invert: false });
    assert_eq!(
        victor.config_openloop_ramp(d(0.5), 10),
        Request::ConfigOpenloopRamp { seconds_from_neutral_to_full: d(0.5), timeout_ms: 10 }
    );
    assert_eq!(
        victor.config_closedloop_ramp(d(0.25), 0),
        Request::ConfigClosedloopRamp { seconds_from_neutral_to_full: d(0.25), timeout_ms: 0 }
    );
    assert_eq!(
        victor.config_kp(1, d(0.1), 10),
        Request::ConfigKp { slot_idx: 1, value: d(0.1), timeout_ms: 10 }
    );
    assert_eq!(
        victor.config_ki(1, d(0.2), 10),
        Request::ConfigKi { slot_idx: 1, value: d(0.2), timeout_ms: 10 }
    );
    assert_eq!(
        victor.config_kd(1, d(0.3), 10),
        Request::ConfigKd { slot_idx: 1, value: d(0.3), timeout_ms: 10 }
    );
    assert_eq!(
        victor.config_kf(1, d(0.4), 10),
        Request::ConfigKf { slot_idx: 1, value: d(0.4), timeout_ms: 10 }
    );
    assert_eq!(
        victor.config_selected_feedback_sensor(RemoteFeedbackDevice::RemoteSensor0, 1, 10),
        Request::ConfigSelectedRemoteFeedbackSensor {
            feedback_device: RemoteFeedbackDevice::RemoteSensor0,
            pid_idx: 1,
            timeout_ms: 10
        }
    );
    assert_eq!(
        victor.config_remote_feedback_filter(4, RemoteSensorSource::Pigeon_Yaw, 0, 10),
        Request::ConfigRemoteFeedbackFilter {
            device_id: 4,
            remote_sensor_source: RemoteSensorSource::Pigeon_Yaw,
            remote_ordinal: 0,
            timeout_ms: 10
        }
    );
    assert_eq!(
        victor.config_sensor_term(SensorTerm::Diff1, FeedbackDevice::RemoteSensor1, 10),
        Request::ConfigSensorTerm {
            sensor_term: SensorTerm::Diff1,
            feedback_device: FeedbackDevice::RemoteSensor1,
            timeout_ms: 10
        }
    );
    assert_eq!(
        victor.set_control_frame_period(ControlFrame::Control_3_General, 10),
        Request::SetControlFramePeriod { frame: ControlFrame::Control_3_General, period_ms: 10 }
    );
    assert_eq!(
        victor.set_status_frame_period(StatusFrame::Status_2_Feedback0, 20, 10),
        Request::SetStatusFramePeriod {
            frame: StatusFrame::Status_2_Feedback0,
            period_ms: 20,
            timeout_ms: 10
        }
    );
    assert_eq!(
        victor.config_set_parameter(ParamEnum::StatusFramePeriod, d(2.0), 3, 1, 10),
        Request::ConfigSetParameter {
            param: ParamEnum::StatusFramePeriod,
            value: d(2.0),
            sub_value: 3,
            ordinal: 1,
            timeout_ms: 10
        }
    );
    assert_eq!(
        victor.config_get_parameter(ParamEnum::StatusFramePeriod, 1, 10),
        RealQuery::ConfigGetParameter {
            param: ParamEnum::StatusFramePeriod,
            ordinal: 1,
            timeout_ms: 10
        }
    );
    assert_eq!(
        victor.config_get_custom_param(1, 10),
        WholeQuery::ConfigGetCustomParam { param_index: 1, timout_ms: 10 }
    );
    assert_eq!(victor.get_bus_voltage(), RealQuery::GetBusVoltage);
    assert_eq!(victor.get_faults(), WholeQuery::GetFaults);
    assert_eq!(victor.get_sticky_faults(), WholeQuery::GetStickyFaults);
    assert_eq!(
        victor.clear_sticky_faults(10),
        Request::ClearStickyFaults { timeout_ms: 10 }
    );
    assert_eq!(
        victor.get_selected_sensor_position(1),
        WholeQuery::GetSelectedSensorPosition { pid_idx: 1 }
    );
    assert_eq!(
        victor.select_profile_slot(2, 1),
        Request::SelectProfileSlot { slot_idx: 2, pid_idx: 1 }
    );
}

#[test]
fn motion_profile_requests() {
    let talon = TalonSRX::new(8);
    let p = TrajectoryPoint {
        position: d(10.0),
        velocity: d(2.0),
        auxiliary_pos: d(0.0),
        profile_slot_select_0: 1,
        profile_slot_select_1: 0,
        is_last_point: false,
        zero_pos: true,
        time_dur: TrajectoryDuration::T20ms,
    };
    assert_eq!(
        talon.push_motion_profile_trajectory(&p),
        Request::PushMotionProfileTrajectory { traj_pt: p }
    );
    assert_eq!(talon.process_motion_profile_buffer(), Request::ProcessMotionProfileBuffer);
    assert_eq!(talon.get_motion_profile_status(), StatusQuery::GetMotionProfileStatus);
    assert_eq!(
        talon.clear_motion_profile_trajectories(),
        Request::ClearMotionProfileTrajectories
    );
    assert_eq!(
        talon.clear_motion_profile_has_underrun(10),
        Request::ClearMotionProfileHasUnderrun { timeout_ms: 10 }
    );
    assert_eq!(
        talon.get_motion_profile_top_level_buffer_count(),
        WholeQuery::GetMotionProfileTopLevelBufferCount
    );
    assert_eq!(
        talon.is_motion_profile_top_level_buffer_full(),
        FlagQuery::IsMotionProfileTopLevelBufferFull
    );
    assert_eq!(
        talon.config_motion_profile_trajectory_period(5, 10),
        Request::ConfigMotionProfileTrajectoryPeriod { base_traj_duration_ms: 5, timeout_ms: 10 }
    );
}

#[test]
fn sensor_collection_requests() {
    let talon = TalonSRX::new(8);
    assert_eq!(talon.get_analog_in(), WholeQuery::GetAnalogIn);
    assert_eq!(
        talon.set_analog_position(100, 10),
        Request::SetAnalogPosition { new_position: 100, timeout_ms: 10 }
    );
    assert_eq!(talon.get_quadrature_position(), WholeQuery::GetQuadraturePosition);
    assert_eq!(
        talon.set_quadrature_position(-5, 0),
        Request::SetQuadraturePosition { new_position: -5, timeout_ms: 0 }
    );
    assert_eq!(
        talon.set_pulse_width_position(7, 0),
        Request::SetPulseWidthPosition { new_position: 7, timeout_ms: 0 }
    );
    assert_eq!(talon.get_pin_state_quad_idx(), WholeQuery::GetPinStateQuadIdx);
    assert_eq!(talon.is_fwd_limit_switch_closed(), WholeQuery::IsFwdLimitSwitchClosed);
    assert_eq!(talon.is_rev_limit_switch_closed(), WholeQuery::IsRevLimitSwitchClosed);
}

#[test]
fn a_command_travels_as_a_request() {
    let talon = TalonSRX::new(8);
    let command = talon.neutral_output();
    assert_eq!(
        Request::from_command(command),
        Request::Control(Command::ApplyWhole(WholeDemands {
            mode: ControlMode::Disabled,
            demand0: 0,
            demand1: 0
        }))
    );
    assert_eq!(talon.get_base_id(), 0x0204_0008);
}

#[test]
fn timeout_zero_waits_for_nothing() {
    assert!(!waits_for_confirmation(0));
    assert!(waits_for_confirmation(1));
    assert!(waits_for_confirmation(10));
    assert!(waits_for_confirmation(i32::MAX));
    assert!(!waits_for_confirmation(-1));
}

#[test]
fn numbers_of_the_enumerations() {
    use_codes();
}

fn use_codes() {
    assert_eq!(ControlMode::PercentOutput.code(), 0);
    assert_eq!(ControlMode::Position.code(), 1);
    assert_eq!(ControlMode::Velocity.code(), 2);
    assert_eq!(ControlMode::Current.code(), 3);
    assert_eq!(ControlMode::Follower.code(), 5);
    assert_eq!(ControlMode::MotionProfile.code(), 6);
    assert_eq!(ControlMode::MotionMagic.code(), 7);
    assert_eq!(ControlMode::MotionProfileArc.code(), 10);
    assert_eq!(ControlMode::Disabled.code(), 15);
    assert_eq!(DemandType::Neutral.code(), 0);
    assert_eq!(DemandType::AuxPID.code(), 1);
    assert_eq!(DemandType::ArbitraryFeedForward.code(), 2);
    assert_eq!(FollowerType::PercentOutput.code(), 0);
    assert_eq!(FollowerType::AuxOutput1.code(), 1);
    assert_eq!(NeutralMode::EEPROMSetting.code(), 0);
    assert_eq!(NeutralMode::Coast.code(), 1);
    assert_eq!(NeutralMode::Brake.code(), 2);
    assert_eq!(FeedbackDevice::Unselected.code(), -1);
    assert_eq!(FeedbackDevice::QuadEncoder.code(), 0);
    assert_eq!(FeedbackDevice::Analog.code(), 2);
    assert_eq!(FeedbackDevice::Tachometer.code(), 4);
    assert_eq!(FeedbackDevice::PulseWidthEncodedPosition.code(), 8);
    assert_eq!(FeedbackDevice::SoftwareEmulatedSensor.code(), 15);
    assert_eq!(RemoteFeedbackDevice::Unselected.code(), -1);
    assert_eq!(RemoteFeedbackDevice::SensorSum.code(), 9);
    assert_eq!(RemoteFeedbackDevice::SensorDifference.code(), 10);
    assert_eq!(RemoteFeedbackDevice::RemoteSensor0.code(), 11);
    assert_eq!(RemoteFeedbackDevice::RemoteSensor1.code(), 12);
    assert_eq!(RemoteSensorSource::Off.code(), 0);
    assert_eq!(RemoteSensorSource::GadgeteerPigeon_Roll.code(), 12);
    assert_eq!(SensorTerm::Sum0.code(), 0);
    assert_eq!(SensorTerm::Diff1.code(), 3);
    assert_eq!(ControlFrame::Control_3_General.code(), 0x04_0080);
    assert_eq!(ControlFrame::Control_4_Advanced.code(), 0x04_00c0);
    assert_eq!(ControlFrame::Control_6_MotProfAddTrajPoint.code(), 0x04_0140);
    assert_eq!(StatusFrame::Status_1_General.code(), 0x1400);
    assert_eq!(StatusFrame::Status_15_FirmareApiStatus.code(), 0x1780);
    assert_eq!(StatusFrameEnhanced::Status_3_Quadrature.code(), 0x1480);
    assert_eq!(StatusFrameEnhanced::Status_11_UartGadgeteer.code(), 0x1680);
    assert_eq!(LimitSwitchSource::FeedbackConnector.code(), 0);
    assert_eq!(LimitSwitchSource::Deactivated.code(), 3);
    assert_eq!(RemoteLimitSwitchSource::RemoteTalonSRX.code(), 1);
    assert_eq!(RemoteLimitSwitchSource::Deactivated.code(), 3);
    assert_eq!(LimitSwitchNormal::NormallyOpen.code(), 0);
    assert_eq!(LimitSwitchNormal::Disabled.code(), 2);
    assert_eq!(VelocityMeasPeriod::Period_1Ms.code(), 1);
    assert_eq!(VelocityMeasPeriod::Period_100Ms.code(), 100);
    assert_eq!(ParamEnum::PIDLoopPolarity.code(), 337);
    assert_eq!(ParamEnum::OnBoot_BrakeMode.code(), 31);
    assert_eq!(ParamEnum::MotionMeas_shake_reject_timeout.code(), 180);
    assert_eq!(ParamEnum::CustomParam.code(), 380);
}
