//! The two controllers and the interface they share.
//!
//! A controller object is its base address. What it is asked to do comes back
//! as the value to send; sending it is the caller's part.

use vstd::prelude::*;
use crate::address::DeviceFamily;
use crate::address::base_address;
use crate::address::base_address_value;
use crate::address::device_number_of;
use crate::address::device_number_value;
use crate::control::Command;
use crate::control::ControlMode;
use crate::control::DemandType;
use crate::control::FollowerType;
use crate::control::WholeDemands;
use crate::control::encode_follow;
use crate::control::encode_set;
use crate::control::is_follow_command;
use crate::control::is_set_command;
use crate::demand::Demand;
use crate::motion::TrajectoryPoint;
use crate::private::Sealed;
use crate::request::ControlFrame;
use crate::request::FeedbackDevice;
use crate::request::LimitSwitchNormal;
use crate::request::LimitSwitchSource;
use crate::request::NeutralMode;
use crate::request::ParamEnum;
use crate::request::RemoteFeedbackDevice;
use crate::request::RemoteLimitSwitchSource;
use crate::request::RemoteSensorSource;
use crate::request::FlagQuery;
use crate::request::RealQuery;
use crate::request::Request;
use crate::request::StatusQuery;
use crate::request::WholeQuery;
use crate::request::SensorTerm;
use crate::request::StatusFrame;
use crate::request::StatusFrameEnhanced;
use crate::request::VelocityMeasPeriod;

verus! {

/// A device with a base address on the bus. Only the two types of this module
/// implement it.
pub trait Device: Sealed + Sized {
    /// The family of the controller type.
    spec fn family() -> DeviceFamily;

    /// The base address of this controller.
    spec fn base_id(&self) -> i32;

    /// The controller with device number `device_number`, which is meant to be
    /// from 0 to 62 and is not checked.
    fn new(device_number: i32) -> (r: Self)
        ensures
            r.base_id() == base_address_value(Self::family(), device_number),
    ;

    fn get_base_id(&self) -> (r: i32)
        ensures
            r == self.base_id(),
    ;
}

/// What both controller families offer. Only the two types of this module
/// implement it.
///
/// Nothing is sent from here. `set`, `neutral_output` and `follow` return the
/// command they encode; every other method returns the request that does what
/// its comment says, for the transport to carry. A method that asks for a
/// value returns a question whose type says of what kind the answer is.
pub trait BaseMotorController: Device {
    /// The device number held in the base address.
    fn get_device_id(&self) -> (r: i32)
        ensures
            r == device_number_value(self.base_id()),
    {
        device_number_of(self.get_base_id())
    }

    /// The command that puts the controller into `mode` with the two demands.
    ///
    /// * `PercentOutput`: `demand0` is from -1 to 1, 0 being stopped.
    /// * `Current`: `demand0` is in amperes; no second demand is sent.
    /// * `Velocity`: `demand0` is in sensor units per 100 ms.
    /// * `Position`: `demand0` is in sensor units.
    /// * `Follower`: `demand0` is the number of the device to follow, or its
    ///   24-bit identifier.
    /// * `Disabled`: both demands are sent as zero.
    fn set(&self, mode: ControlMode, demand0: Demand, demand1_type: DemandType, demand1: Demand)
        -> (sent: Command)
        ensures
            is_set_command(self.base_id(), mode, demand0, demand1_type, demand1, sent),
    {
        encode_set(self.get_base_id(), mode, demand0, demand1_type, demand1)
    }

    /// The command that takes the output to neutral: `Disabled` mode.
    fn neutral_output(&self) -> (sent: Command)
        ensures
            sent == Command::ApplyWhole(
                (WholeDemands { mode: ControlMode::Disabled, demand0: 0, demand1: 0 }),
            ),
    {
        self.set(ControlMode::Disabled, Demand::zero(), DemandType::Neutral, Demand::zero())
    }

    /// Sets what the output does at neutral throttle.
    fn set_neutral_mode(&self, neutral_mode: NeutralMode) -> (r: Request)
        ensures
            r == (Request::SetNeutralMode { neutral_mode }),
    {
        Request::SetNeutralMode { neutral_mode }
    }

    /// Sets the phase of the sensor, so that a positive output gives a rising
    /// sensor reading.
    fn set_sensor_phase(&self, phase_sensor: bool) -> (r: Request)
        ensures
            r == (Request::SetSensorPhase { phase_sensor }),
    {
        Request::SetSensorPhase { phase_sensor }
    }

    /// Inverts the output of the controller. The sensor phase is not touched.
    fn set_inverted(&self, invert: bool) -> (r: Request)
        ensures
            r == (Request::SetInverted { invert }),
    {
        Request::SetInverted { invert }
    }

    /// Sets the open-loop ramp: the seconds from neutral to full output.
    fn config_openloop_ramp(
        &self,
        seconds_from_neutral_to_full: Demand,
        timeout_ms: i32,
    ) -> (r: Request)
        ensures
            r == (Request::ConfigOpenloopRamp { seconds_from_neutral_to_full, timeout_ms }),
    {
        Request::ConfigOpenloopRamp { seconds_from_neutral_to_full, timeout_ms }
    }

    /// Sets the closed-loop ramp: the seconds from neutral to full output.
    fn config_closedloop_ramp(
        &self,
        seconds_from_neutral_to_full: Demand,
        timeout_ms: i32,
    ) -> (r: Request)
        ensures
            r == (Request::ConfigClosedloopRamp { seconds_from_neutral_to_full, timeout_ms }),
    {
        Request::ConfigClosedloopRamp { seconds_from_neutral_to_full, timeout_ms }
    }

    /// Sets the peak output in the forward direction.
    fn config_peak_output_forward(&self, percent_out: Demand, timeout_ms: i32) -> (r: Request)
        ensures
            r == (Request::ConfigPeakOutputForward { percent_out, timeout_ms }),
    {
        Request::ConfigPeakOutputForward { percent_out, timeout_ms }
    }

    /// Sets the peak output in the reverse direction.
    fn config_peak_output_reverse(&self, percent_out: Demand, timeout_ms: i32) -> (r: Request)
        ensures
            r == (Request::ConfigPeakOutputReverse { percent_out, timeout_ms }),
    {
        Request::ConfigPeakOutputReverse { percent_out, timeout_ms }
    }

    /// Sets the nominal output in the forward direction.
    fn config_nominal_output_forward(&self, percent_out: Demand, timeout_ms: i32) -> (r: Request)
        ensures
            r == (Request::ConfigNominalOutputForward { percent_out, timeout_ms }),
    {
        Request::ConfigNominalOutputForward { percent_out, timeout_ms }
    }

    /// Sets the nominal output in the reverse direction.
    fn config_nominal_output_reverse(&self, percent_out: Demand, timeout_ms: i32) -> (r: Request)
        ensures
            r == (Request::ConfigNominalOutputReverse { percent_out, timeout_ms }),
    {
        Request::ConfigNominalOutputReverse { percent_out, timeout_ms }
    }

    /// Sets the output deadband around neutral.
    fn config_neutral_deadband(&self, percent_deadband: Demand, timeout_ms: i32) -> (r: Request)
        ensures
            r == (Request::ConfigNeutralDeadband { percent_deadband, timeout_ms }),
    {
        Request::ConfigNeutralDeadband { percent_deadband, timeout_ms }
    }

    /// Sets the voltage that full output stands for while voltage compensation
    /// is on.
    fn config_voltage_comp_saturation(&self, voltage: Demand, timeout_ms: i32) -> (r: Request)
        ensures
            r == (Request::ConfigVoltageCompSaturation { voltage, timeout_ms }),
    {
        Request::ConfigVoltageCompSaturation { voltage, timeout_ms }
    }

    /// Sets the number of samples in the rolling average of the voltage
    /// measurement.
    fn config_voltage_measurement_filter(
        &self,
        filter_window_samples: i32,
        timeout_ms: i32,
    ) -> (r: Request)
        ensures
            r == (Request::ConfigVoltageMeasurementFilter { filter_window_samples, timeout_ms }),
    {
        Request::ConfigVoltageMeasurementFilter { filter_window_samples, timeout_ms }
    }

    /// Turns voltage compensation on or off, for all control modes.
    fn enable_voltage_compensation(&self, enable: bool) -> (r: Request)
        ensures
            r == (Request::EnableVoltageCompensation { enable }),
    {
        Request::EnableVoltageCompensation { enable }
    }

    /// Asks for the bus voltage.
    fn get_bus_voltage(&self) -> (r: RealQuery)
        ensures
            r == RealQuery::GetBusVoltage,
    {
        RealQuery::GetBusVoltage
    }

    /// Asks for the output as a fraction of full output, from -1 to 1.
    fn get_motor_output_percent(&self) -> (r: RealQuery)
        ensures
            r == RealQuery::GetMotorOutputPercent,
    {
        RealQuery::GetMotorOutputPercent
    }

    /// Asks for the output current, in amperes.
    fn get_output_current(&self) -> (r: RealQuery)
        ensures
            r == RealQuery::GetOutputCurrent,
    {
        RealQuery::GetOutputCurrent
    }

    /// Asks for the temperature of the controller, in degrees Celsius.
    fn get_temperature(&self) -> (r: RealQuery)
        ensures
            r == RealQuery::GetTemperature,
    {
        RealQuery::GetTemperature
    }

    /// Selects a remote feedback device for closed loop `pid_idx`: 0 is the
    /// primary loop, 1 the auxiliary.
    fn config_selected_feedback_sensor(
        &self,
        feedback_device: RemoteFeedbackDevice,
        pid_idx: i32,
        timeout_ms: i32,
    ) -> (r: Request)
        ensures
            r == (Request::ConfigSelectedRemoteFeedbackSensor {
                feedback_device,
                pid_idx,
                timeout_ms,
            }),
    {
        Request::ConfigSelectedRemoteFeedbackSensor { feedback_device, pid_idx, timeout_ms }
    }

    /// Sets the factor applied to the reading of the selected feedback sensor.
    fn config_selected_feedback_coefficient(
        &self,
        coefficient: Demand,
        pid_idx: i32,
        timeout_ms: i32,
    ) -> (r: Request)
        ensures
            r == (Request::ConfigSelectedFeedbackCoefficient { coefficient, pid_idx, timeout_ms }),
    {
        Request::ConfigSelectedFeedbackCoefficient { coefficient, pid_idx, timeout_ms }
    }

    /// Binds a remote device and signal to remote sensor 0 or 1.
    fn config_remote_feedback_filter(
        &self,
        device_id: i32,
        remote_sensor_source: RemoteSensorSource,
        remote_ordinal: i32,
        timeout_ms: i32,
    ) -> (r: Request)
        ensures
            r == (Request::ConfigRemoteFeedbackFilter {
                device_id,
                remote_sensor_source,
                remote_ordinal,
                timeout_ms,
            }),
    {
        Request::ConfigRemoteFeedbackFilter {
            device_id,
            remote_sensor_source,
            remote_ordinal,
            timeout_ms,
        }
    }

    /// Binds a feedback device to one of the four terms of the sensor sum and
    /// difference.
    fn config_sensor_term(
        &self,
        sensor_term: SensorTerm,
        feedback_device: FeedbackDevice,
        timeout_ms: i32,
    ) -> (r: Request)
        ensures
            r == (Request::ConfigSensorTerm { sensor_term, feedback_device, timeout_ms }),
    {
        Request::ConfigSensorTerm { sensor_term, feedback_device, timeout_ms }
    }

    /// Asks for the position of the selected sensor, in raw sensor units.
    fn get_selected_sensor_position(&self, pid_idx: i32) -> (r: WholeQuery)
        ensures
            r == (WholeQuery::GetSelectedSensorPosition { pid_idx }),
    {
        WholeQuery::GetSelectedSensorPosition { pid_idx }
    }

    /// Asks for the velocity of the selected sensor, in raw units per 100 ms.
    fn get_selected_sensor_velocity(&self, pid_idx: i32) -> (r: WholeQuery)
        ensures
            r == (WholeQuery::GetSelectedSensorVelocity { pid_idx }),
    {
        WholeQuery::GetSelectedSensorVelocity { pid_idx }
    }

    /// Sets the position of the selected sensor.
    fn set_selected_sensor_position(
        &self,
        sensor_pos: i32,
        pid_idx: i32,
        timeout_ms: i32,
    ) -> (r: Request)
        ensures
            r == (Request::SetSelectedSensorPosition { sensor_pos, pid_idx, timeout_ms }),
    {
        Request::SetSelectedSensorPosition { sensor_pos, pid_idx, timeout_ms }
    }

    /// Sets the period of a control frame.
    fn set_control_frame_period(&self, frame: ControlFrame, period_ms: i32) -> (r: Request)
        ensures
            r == (Request::SetControlFramePeriod { frame, period_ms }),
    {
        Request::SetControlFramePeriod { frame, period_ms }
    }

    /// Sets the period of a status frame.
    fn set_status_frame_period(
        &self,
        frame: StatusFrame,
        period_ms: i32,
        timeout_ms: i32,
    ) -> (r: Request)
        ensures
            r == (Request::SetStatusFramePeriod { frame, period_ms, timeout_ms }),
    {
        Request::SetStatusFramePeriod { frame, period_ms, timeout_ms }
    }

    /// Asks for the period of a status frame.
    fn get_status_frame_period(&self, frame: StatusFrame, timeout_ms: i32) -> (r: WholeQuery)
        ensures
            r == (WholeQuery::GetStatusFramePeriod { frame, timeout_ms }),
    {
        WholeQuery::GetStatusFramePeriod { frame, timeout_ms }
    }

    /// Takes the forward limit switch from the remote device `device_id`.
    fn config_forward_limit_switch_source(
        &self,
        type_: RemoteLimitSwitchSource,
        normal_open_or_close: LimitSwitchNormal,
        device_id: i32,
        timeout_ms: i32,
    ) -> (r: Request)
        ensures
            r == (Request::ConfigForwardRemoteLimitSwitchSource {
                type_,
                normal_open_or_close,
                device_id,
                timeout_ms,
            }),
    {
        Request::ConfigForwardRemoteLimitSwitchSource {
            type_,
            normal_open_or_close,
            device_id,
            timeout_ms,
        }
    }

    /// Takes the reverse limit switch from the remote device `device_id`.
    fn config_reverse_limit_switch_source(
        &self,
        type_: RemoteLimitSwitchSource,
        normal_open_or_close: LimitSwitchNormal,
        device_id: i32,
        timeout_ms: i32,
    ) -> (r: Request)
        ensures
            r == (Request::ConfigReverseRemoteLimitSwitchSource {
                type_,
                normal_open_or_close,
                device_id,
                timeout_ms,
            }),
    {
        Request::ConfigReverseRemoteLimitSwitchSource {
            type_,
            normal_open_or_close,
            device_id,
            timeout_ms,
        }
    }

    /// Turns the limit switches on or off, over what is configured.
    fn override_limit_switches_enable(&self, enable: bool) -> (r: Request)
        ensures
            r == (Request::OverrideLimitSwitchesEnable { enable }),
    {
        Request::OverrideLimitSwitchesEnable { enable }
    }

    /// Sets the forward soft limit, in raw sensor units.
    fn config_forward_soft_limit_threshold(
        &self,
        forward_sensor_limit: i32,
        timeout_ms: i32,
    ) -> (r: Request)
        ensures
            r == (Request::ConfigForwardSoftLimitThreshold { forward_sensor_limit, timeout_ms }),
    {
        Request::ConfigForwardSoftLimitThreshold { forward_sensor_limit, timeout_ms }
    }

    /// Sets the reverse soft limit, in raw sensor units.
    fn config_reverse_soft_limit_threshold(
        &self,
        reverse_sensor_limit: i32,
        timeout_ms: i32,
    ) -> (r: Request)
        ensures
            r == (Request::ConfigReverseSoftLimitThreshold { reverse_sensor_limit, timeout_ms }),
    {
        Request::ConfigReverseSoftLimitThreshold { reverse_sensor_limit, timeout_ms }
    }

    /// Turns the forward soft limit on or off.
    fn config_forward_soft_limit_enable(&self, enable: bool, timeout_ms: i32) -> (r: Request)
        ensures
            r == (Request::ConfigForwardSoftLimitEnable { enable, timeout_ms }),
    {
        Request::ConfigForwardSoftLimitEnable { enable, timeout_ms }
    }

    /// Turns the reverse soft limit on or off.
    fn config_reverse_soft_limit_enable(&self, enable: bool, timeout_ms: i32) -> (r: Request)
        ensures
            r == (Request::ConfigReverseSoftLimitEnable { enable, timeout_ms }),
    {
        Request::ConfigReverseSoftLimitEnable { enable, timeout_ms }
    }

    /// Turns the soft limits on or off, over what is configured.
    fn override_soft_limits_enable(&self, enable: bool) -> (r: Request)
        ensures
            r == (Request::OverrideSoftLimitsEnable { enable }),
    {
        Request::OverrideSoftLimitsEnable { enable }
    }

    /// Sets the proportional gain of a slot.
    fn config_kp(&self, slot_idx: i32, value: Demand, timeout_ms: i32) -> (r: Request)
        ensures
            r == (Request::ConfigKp { slot_idx, value, timeout_ms }),
    {
        Request::ConfigKp { slot_idx, value, timeout_ms }
    }

    /// Sets the integral gain of a slot.
    fn config_ki(&self, slot_idx: i32, value: Demand, timeout_ms: i32) -> (r: Request)
        ensures
            r == (Request::ConfigKi { slot_idx, value, timeout_ms }),
    {
        Request::ConfigKi { slot_idx, value, timeout_ms }
    }

    /// Sets the derivative gain of a slot.
    fn config_kd(&self, slot_idx: i32, value: Demand, timeout_ms: i32) -> (r: Request)
        ensures
            r == (Request::ConfigKd { slot_idx, value, timeout_ms }),
    {
        Request::ConfigKd { slot_idx, value, timeout_ms }
    }

    /// Sets the feed-forward gain of a slot.
    fn config_kf(&self, slot_idx: i32, value: Demand, timeout_ms: i32) -> (r: Request)
        ensures
            r == (Request::ConfigKf { slot_idx, value, timeout_ms }),
    {
        Request::ConfigKf { slot_idx, value, timeout_ms }
    }

    /// Sets the closed-loop error within which a slot drives no output.
    fn config_allowable_closedloop_error(
        &self,
        slot_idx: i32,
        allowable_closed_loop_error: i32,
        timeout_ms: i32,
    ) -> (r: Request)
        ensures
            r == (Request::ConfigAllowableClosedloopError {
                slot_idx,
                allowable_closed_loop_error,
                timeout_ms,
            }),
    {
        Request::ConfigAllowableClosedloopError {
            slot_idx,
            allowable_closed_loop_error,
            timeout_ms,
        }
    }

    /// Sets the limit of the integral accumulator of a slot.
    fn config_max_integral_accumulator(
        &self,
        slot_idx: i32,
        iaccum: Demand,
        timeout_ms: i32,
    ) -> (r: Request)
        ensures
            r == (Request::ConfigMaxIntegralAccumulator { slot_idx, iaccum, timeout_ms }),
    {
        Request::ConfigMaxIntegralAccumulator { slot_idx, iaccum, timeout_ms }
    }

    /// Sets the peak output of a slot.
    fn config_closed_loop_peak_output(
        &self,
        slot_idx: i32,
        percent_out: Demand,
        timeout_ms: i32,
    ) -> (r: Request)
        ensures
            r == (Request::ConfigClosedLoopPeakOutput { slot_idx, percent_out, timeout_ms }),
    {
        Request::ConfigClosedLoopPeakOutput { slot_idx, percent_out, timeout_ms }
    }

    /// Sets the loop period of a slot, in milliseconds.
    fn config_closed_loop_period(
        &self,
        slot_idx: i32,
        loop_time_ms: i32,
        timeout_ms: i32,
    ) -> (r: Request)
        ensures
            r == (Request::ConfigClosedLoopPeriod { slot_idx, loop_time_ms, timeout_ms }),
    {
        Request::ConfigClosedLoopPeriod { slot_idx, loop_time_ms, timeout_ms }
    }

    /// Sets the integral accumulator of a closed loop.
    fn set_integral_accumulator(
        &self,
        iaccum: Demand,
        pid_idx: i32,
        timeout_ms: i32,
    ) -> (r: Request)
        ensures
            r == (Request::SetIntegralAccumulator { iaccum, pid_idx, timeout_ms }),
    {
        Request::SetIntegralAccumulator { iaccum, pid_idx, timeout_ms }
    }

    /// Asks for the error of a closed loop.
    fn get_closed_loop_error(&self, pid_idx: i32) -> (r: WholeQuery)
        ensures
            r == (WholeQuery::GetClosedLoopError { pid_idx }),
    {
        WholeQuery::GetClosedLoopError { pid_idx }
    }

    /// Asks for the integral accumulator of a closed loop.
    fn get_integral_accumulator(&self, pid_idx: i32) -> (r: RealQuery)
        ensures
            r == (RealQuery::GetIntegralAccumulator { pid_idx }),
    {
        RealQuery::GetIntegralAccumulator { pid_idx }
    }

    /// Asks for the derivative of the error of a closed loop.
    fn get_error_derivative(&self, pid_idx: i32) -> (r: RealQuery)
        ensures
            r == (RealQuery::GetErrorDerivative { pid_idx }),
    {
        RealQuery::GetErrorDerivative { pid_idx }
    }

    /// Selects the gain slot that a closed loop uses.
    fn select_profile_slot(&self, slot_idx: i32, pid_idx: i32) -> (r: Request)
        ensures
            r == (Request::SelectProfileSlot { slot_idx, pid_idx }),
    {
        Request::SelectProfileSlot { slot_idx, pid_idx }
    }

    /// Asks for the target of a closed loop.
    fn get_closed_loop_target(&self, pid_idx: i32) -> (r: WholeQuery)
        ensures
            r == (WholeQuery::GetClosedLoopTarget { pid_idx }),
    {
        WholeQuery::GetClosedLoopTarget { pid_idx }
    }

    /// Asks for the target position of the active trajectory point.
    fn get_active_trajectory_position(&self) -> (r: WholeQuery)
        ensures
            r == WholeQuery::GetActiveTrajectoryPosition,
    {
        WholeQuery::GetActiveTrajectoryPosition
    }

    /// Asks for the target velocity of the active trajectory point.
    fn get_active_trajectory_velocity(&self) -> (r: WholeQuery)
        ensures
            r == WholeQuery::GetActiveTrajectoryVelocity,
    {
        WholeQuery::GetActiveTrajectoryVelocity
    }

    /// Asks for the target heading of the active trajectory point.
    fn get_active_trajectory_heading(&self) -> (r: RealQuery)
        ensures
            r == RealQuery::GetActiveTrajectoryHeading,
    {
        RealQuery::GetActiveTrajectoryHeading
    }

    /// Sets the cruise velocity of motion magic: the peak velocity of its
    /// curve.
    fn config_motion_cruise_velocity(
        &self,
        sensor_units_per_100ms: i32,
        timeout_ms: i32,
    ) -> (r: Request)
        ensures
            r == (Request::ConfigMotionCruiseVelocity { sensor_units_per_100ms, timeout_ms }),
    {
        Request::ConfigMotionCruiseVelocity { sensor_units_per_100ms, timeout_ms }
    }

    /// Sets the acceleration of motion magic.
    fn config_motion_acceleration(
        &self,
        sensor_units_per_100ms_per_sec: i32,
        timeout_ms: i32,
    ) -> (r: Request)
        ensures
            r == (Request::ConfigMotionAcceleration { sensor_units_per_100ms_per_sec, timeout_ms }),
    {
        Request::ConfigMotionAcceleration { sensor_units_per_100ms_per_sec, timeout_ms }
    }

    /// Empties both trajectory buffers.
    fn clear_motion_profile_trajectories(&self) -> (r: Request)
        ensures
            r == Request::ClearMotionProfileTrajectories,
    {
        Request::ClearMotionProfileTrajectories
    }

    /// Asks how many points the top buffer holds. The controller is not
    /// consulted for this.
    fn get_motion_profile_top_level_buffer_count(&self) -> (r: WholeQuery)
        ensures
            r == WholeQuery::GetMotionProfileTopLevelBufferCount,
    {
        WholeQuery::GetMotionProfileTopLevelBufferCount
    }

    /// Appends a point to the top buffer.
    fn push_motion_profile_trajectory(&self, traj_pt: &TrajectoryPoint) -> (r: Request)
        ensures
            r == (Request::PushMotionProfileTrajectory { traj_pt: *traj_pt }),
    {
        Request::PushMotionProfileTrajectory { traj_pt: *traj_pt }
    }

    /// Asks whether the top buffer is full. The controller is not consulted
    /// for this.
    fn is_motion_profile_top_level_buffer_full(&self) -> (r: FlagQuery)
        ensures
            r == FlagQuery::IsMotionProfileTopLevelBufferFull,
    {
        FlagQuery::IsMotionProfileTopLevelBufferFull
    }

    /// Moves points from the top buffer to the bottom buffer as room allows.
    /// It is to be called at least twice as often as the profile's points
    /// follow each other.
    fn process_motion_profile_buffer(&self) -> (r: Request)
        ensures
            r == Request::ProcessMotionProfileBuffer,
    {
        Request::ProcessMotionProfileBuffer
    }

    /// Asks for a snapshot of the buffers and the executer. The answer is
    /// decoded by `MotionProfileStatus::fill` or `from_report`.
    fn get_motion_profile_status(&self) -> (r: StatusQuery)
        ensures
            r == StatusQuery::GetMotionProfileStatus,
    {
        StatusQuery::GetMotionProfileStatus
    }

    /// Clears the sticky underrun flag.
    fn clear_motion_profile_has_underrun(&self, timeout_ms: i32) -> (r: Request)
        ensures
            r == (Request::ClearMotionProfileHasUnderrun { timeout_ms }),
    {
        Request::ClearMotionProfileHasUnderrun { timeout_ms }
    }

    /// Sets the period at which trajectory points are sent to the controller.
    fn change_motion_control_frame_period(&self, period_ms: i32) -> (r: Request)
        ensures
            r == (Request::ChangeMotionControlFramePeriod { period_ms }),
    {
        Request::ChangeMotionControlFramePeriod { period_ms }
    }

    /// Sets the base duration that is added to the duration of every
    /// trajectory point.
    fn config_motion_profile_trajectory_period(
        &self,
        base_traj_duration_ms: i32,
        timeout_ms: i32,
    ) -> (r: Request)
        ensures
            r == (Request::ConfigMotionProfileTrajectoryPeriod {
                base_traj_duration_ms,
                timeout_ms,
            }),
    {
        Request::ConfigMotionProfileTrajectoryPeriod { base_traj_duration_ms, timeout_ms }
    }

    /// Asks for the code of the last request that failed.
    fn get_last_error(&self) -> (r: Request)
        ensures
            r == Request::GetLastError,
    {
        Request::GetLastError
    }

    /// Asks for the live fault word, which `Faults::from_raw` decodes.
    fn get_faults(&self) -> (r: WholeQuery)
        ensures
            r == WholeQuery::GetFaults,
    {
        WholeQuery::GetFaults
    }

    /// Asks for the sticky fault word, which `StickyFaults::from_raw` decodes.
    fn get_sticky_faults(&self) -> (r: WholeQuery)
        ensures
            r == WholeQuery::GetStickyFaults,
    {
        WholeQuery::GetStickyFaults
    }

    /// Clears the sticky faults.
    fn clear_sticky_faults(&self, timeout_ms: i32) -> (r: Request)
        ensures
            r == (Request::ClearStickyFaults { timeout_ms }),
    {
        Request::ClearStickyFaults { timeout_ms }
    }

    /// Asks for the firmware version: version 1.2 reads 0x0102.
    fn get_firmware_version(&self) -> (r: WholeQuery)
        ensures
            r == WholeQuery::GetFirmwareVersion,
    {
        WholeQuery::GetFirmwareVersion
    }

    /// Asks whether the controller has reset since this was last asked.
    fn has_reset_occurred(&self) -> (r: FlagQuery)
        ensures
            r == FlagQuery::HasResetOccurred,
    {
        FlagQuery::HasResetOccurred
    }

    /// Stores a value of the application's own in custom parameter 0 or 1.
    fn config_set_custom_param(
        &self,
        new_value: i32,
        param_index: i32,
        timeout_ms: i32,
    ) -> (r: Request)
        ensures
            r == (Request::ConfigSetCustomParam { new_value, param_index, timeout_ms }),
    {
        Request::ConfigSetCustomParam { new_value, param_index, timeout_ms }
    }

    /// Asks for custom parameter 0 or 1.
    fn config_get_custom_param(&self, param_index: i32, timout_ms: i32) -> (r: WholeQuery)
        ensures
            r == (WholeQuery::ConfigGetCustomParam { param_index, timout_ms }),
    {
        WholeQuery::ConfigGetCustomParam { param_index, timout_ms }
    }

    /// Sets a parameter by its identifier.
    fn config_set_parameter(
        &self,
        param: ParamEnum,
        value: Demand,
        sub_value: u8,
        ordinal: i32,
        timeout_ms: i32,
    ) -> (r: Request)
        ensures
            r == (Request::ConfigSetParameter { param, value, sub_value, ordinal, timeout_ms }),
    {
        Request::ConfigSetParameter { param, value, sub_value, ordinal, timeout_ms }
    }

    /// Asks for a parameter by its identifier.
    fn config_get_parameter(&self, param: ParamEnum, ordinal: i32, timeout_ms: i32) -> (r:
        RealQuery)
        ensures
            r == (RealQuery::ConfigGetParameter { param, ordinal, timeout_ms }),
    {
        RealQuery::ConfigGetParameter { param, ordinal, timeout_ms }
    }
    /// Sets the integral zone of a slot: the closed-loop error beyond which
    /// the integral accumulator is cleared. It is sent as the double that
    /// equals `izone`.
    fn config_integral_zone(&self, slot_idx: i32, izone: i32, timeout_ms: i32) -> (r: Request)
        ensures
            r is ConfigIntegralZone,
            r->ConfigIntegralZone_slot_idx == slot_idx,
            r->ConfigIntegralZone_izone.int_value() == Some(izone as int),
            r->ConfigIntegralZone_izone.negative() == (izone < 0),
            r->ConfigIntegralZone_timeout_ms == timeout_ms,
    {
        Request::ConfigIntegralZone { slot_idx, izone: Demand::from_i32(izone), timeout_ms }
    }

    /// Sets the polarity of the auxiliary closed loop: parameter
    /// `PIDLoopPolarity` at ordinal 1, with the value 1 for inverted and 0 for
    /// not.
    fn config_aux_pid_polarity(&self, invert: bool, timeout_ms: i32) -> (r: Request)
        ensures
            r == (Request::ConfigSetParameter {
                param: ParamEnum::PIDLoopPolarity,
                value: Demand::flag_value(invert),
                sub_value: 0,
                ordinal: 1,
                timeout_ms,
            }),
    {
        self.config_set_parameter(
            ParamEnum::PIDLoopPolarity,
            Demand::from_flag(invert),
            0,
            1,
            timeout_ms,
        )
    }

    /// The command that makes this controller follow `master_to_follow`, which
    /// may be of either family.
    fn follow<M: Device>(&self, master_to_follow: &M, follower_type: FollowerType) -> (sent:
        Command)
        ensures
            is_follow_command(self.base_id(), master_to_follow.base_id(), follower_type, sent),
    {
        encode_follow(self.get_base_id(), master_to_follow.get_base_id(), follower_type)
    }
}

/// Reading and setting the raw sensors of a controller that has them. Each
/// method returns the request that does what its comment says.
pub trait SensorCollection: BaseMotorController {
    /// Asks for the analog position, with overflows counted.
    fn get_analog_in(&self) -> (r: WholeQuery)
        ensures
            r == WholeQuery::GetAnalogIn,
    {
        WholeQuery::GetAnalogIn
    }

    /// Sets the analog position.
    fn set_analog_position(&self, new_position: i32, timeout_ms: i32) -> (r: Request)
        ensures
            r == (Request::SetAnalogPosition { new_position, timeout_ms }),
    {
        Request::SetAnalogPosition { new_position, timeout_ms }
    }

    /// Asks for the raw analog reading.
    fn get_analog_in_raw(&self) -> (r: WholeQuery)
        ensures
            r == WholeQuery::GetAnalogInRaw,
    {
        WholeQuery::GetAnalogInRaw
    }

    /// Asks for the analog velocity.
    fn get_analog_in_vel(&self) -> (r: WholeQuery)
        ensures
            r == WholeQuery::GetAnalogInVel,
    {
        WholeQuery::GetAnalogInVel
    }

    /// Asks for the quadrature position.
    fn get_quadrature_position(&self) -> (r: WholeQuery)
        ensures
            r == WholeQuery::GetQuadraturePosition,
    {
        WholeQuery::GetQuadraturePosition
    }

    /// Sets the quadrature position.
    fn set_quadrature_position(&self, new_position: i32, timeout_ms: i32) -> (r: Request)
        ensures
            r == (Request::SetQuadraturePosition { new_position, timeout_ms }),
    {
        Request::SetQuadraturePosition { new_position, timeout_ms }
    }

    /// Asks for the quadrature velocity.
    fn get_quadrature_velocity(&self) -> (r: WholeQuery)
        ensures
            r == WholeQuery::GetQuadratureVelocity,
    {
        WholeQuery::GetQuadratureVelocity
    }

    /// Asks for the pulse-width position.
    fn get_pulse_width_position(&self) -> (r: WholeQuery)
        ensures
            r == WholeQuery::GetPulseWidthPosition,
    {
        WholeQuery::GetPulseWidthPosition
    }

    /// Sets the pulse-width position.
    fn set_pulse_width_position(&self, new_position: i32, timeout_ms: i32) -> (r: Request)
        ensures
            r == (Request::SetPulseWidthPosition { new_position, timeout_ms }),
    {
        Request::SetPulseWidthPosition { new_position, timeout_ms }
    }

    /// Asks for the pulse-width velocity.
    fn get_pulse_width_velocity(&self) -> (r: WholeQuery)
        ensures
            r == WholeQuery::GetPulseWidthVelocity,
    {
        WholeQuery::GetPulseWidthVelocity
    }

    /// Asks for the time from a rising edge to the next falling edge, in
    /// microseconds.
    fn get_pulse_width_rise_to_fall_us(&self) -> (r: WholeQuery)
        ensures
            r == WholeQuery::GetPulseWidthRiseToFallUs,
    {
        WholeQuery::GetPulseWidthRiseToFallUs
    }

    /// Asks for the time from a rising edge to the next rising edge, in
    /// microseconds.
    fn get_pulse_width_rise_to_rise_us(&self) -> (r: WholeQuery)
        ensures
            r == WholeQuery::GetPulseWidthRiseToRiseUs,
    {
        WholeQuery::GetPulseWidthRiseToRiseUs
    }

    /// Asks for the state of quadrature pin A.
    fn get_pin_state_quad_a(&self) -> (r: WholeQuery)
        ensures
            r == WholeQuery::GetPinStateQuadA,
    {
        WholeQuery::GetPinStateQuadA
    }

    /// Asks for the state of quadrature pin B.
    fn get_pin_state_quad_b(&self) -> (r: WholeQuery)
        ensures
            r == WholeQuery::GetPinStateQuadB,
    {
        WholeQuery::GetPinStateQuadB
    }

    /// Asks for the state of the quadrature index pin.
    fn get_pin_state_quad_idx(&self) -> (r: WholeQuery)
        ensures
            r == WholeQuery::GetPinStateQuadIdx,
    {
        WholeQuery::GetPinStateQuadIdx
    }

    /// Asks whether the forward limit switch is closed.
    fn is_fwd_limit_switch_closed(&self) -> (r: WholeQuery)
        ensures
            r == WholeQuery::IsFwdLimitSwitchClosed,
    {
        WholeQuery::IsFwdLimitSwitchClosed
    }

    /// Asks whether the reverse limit switch is closed.
    fn is_rev_limit_switch_closed(&self) -> (r: WholeQuery)
        ensures
            r == WholeQuery::IsRevLimitSwitchClosed,
    {
        WholeQuery::IsRevLimitSwitchClosed
    }
}

/// A Talon SRX on the bus.
pub struct TalonSRX {
    arb_id: i32,
}

/// A Victor SPX on the bus.
pub struct VictorSPX {
    arb_id: i32,
}

impl Device for TalonSRX {
    open spec fn family() -> DeviceFamily {
        DeviceFamily::TalonSRX
    }

    closed spec fn base_id(&self) -> i32 {
        self.arb_id
    }

    fn new(device_number: i32) -> (r: TalonSRX) {
        TalonSRX { arb_id: base_address(DeviceFamily::TalonSRX, device_number) }
    }

    fn get_base_id(&self) -> (r: i32) {
        self.arb_id
    }
}

impl BaseMotorController for TalonSRX {

}

impl Device for VictorSPX {
    open spec fn family() -> DeviceFamily {
        DeviceFamily::VictorSPX
    }

    closed spec fn base_id(&self) -> i32 {
        self.arb_id
    }

    fn new(device_number: i32) -> (r: VictorSPX) {
        VictorSPX { arb_id: base_address(DeviceFamily::VictorSPX, device_number) }
    }

    fn get_base_id(&self) -> (r: i32) {
        self.arb_id
    }
}

impl BaseMotorController for VictorSPX {

}

impl SensorCollection for TalonSRX {

}

impl TalonSRX {
    /// Selects the feedback device for closed loop `pid_idx`: 0 is the primary
    /// loop, 1 the auxiliary.
    pub fn config_selected_feedback_sensor(
        &self,
        feedback_device: FeedbackDevice,
        pid_idx: i32,
        timeout_ms: i32,
    ) -> (r: Request)
        ensures
            r == (Request::ConfigSelectedFeedbackSensor { feedback_device, pid_idx, timeout_ms }),
    {
        Request::ConfigSelectedFeedbackSensor { feedback_device, pid_idx, timeout_ms }
    }

    /// Sets the period of a status frame, those of the Talon alone included.
    pub fn set_status_frame_period(
        &self,
        frame: StatusFrameEnhanced,
        period_ms: i32,
        timeout_ms: i32,
    ) -> (r: Request)
        ensures
            r == (Request::SetStatusFramePeriodEnhanced { frame, period_ms, timeout_ms }),
    {
        Request::SetStatusFramePeriodEnhanced { frame, period_ms, timeout_ms }
    }

    /// Asks for the period of a status frame, those of the Talon alone
    /// included.
    pub fn get_status_frame_period(
        &self,
        frame: StatusFrameEnhanced,
        timeout_ms: i32,
    ) -> (r: WholeQuery)
        ensures
            r == (WholeQuery::GetStatusFramePeriodEnhanced { frame, timeout_ms }),
    {
        WholeQuery::GetStatusFramePeriodEnhanced { frame, timeout_ms }
    }

    /// Sets the period over which one velocity sample is taken.
    pub fn config_velocity_measurement_period(
        &self,
        period: VelocityMeasPeriod,
        timeout_ms: i32,
    ) -> (r: Request)
        ensures
            r == (Request::ConfigVelocityMeasurementPeriod { period, timeout_ms }),
    {
        Request::ConfigVelocityMeasurementPeriod { period, timeout_ms }
    }

    /// Sets the number of samples in the rolling average of the velocity.
    pub fn config_velocity_measurement_window(
        &self,
        window_size: i32,
        timeout_ms: i32,
    ) -> (r: Request)
        ensures
            r == (Request::ConfigVelocityMeasurementWindow { window_size, timeout_ms }),
    {
        Request::ConfigVelocityMeasurementWindow { window_size, timeout_ms }
    }

    /// Sets the peak current, in amperes: above it for longer than the peak
    /// duration, the current is held to the continuous limit.
    pub fn config_peak_current_limit(&self, amps: i32, timeout_ms: i32) -> (r: Request)
        ensures
            r == (Request::ConfigPeakCurrentLimit { amps, timeout_ms }),
    {
        Request::ConfigPeakCurrentLimit { amps, timeout_ms }
    }

    /// Sets the continuous current limit, in amperes.
    pub fn config_continuous_current_limit(&self, amps: i32, timeout_ms: i32) -> (r: Request)
        ensures
            r == (Request::ConfigContinuousCurrentLimit { amps, timeout_ms }),
    {
        Request::ConfigContinuousCurrentLimit { amps, timeout_ms }
    }

    /// Turns current limiting on or off.
    pub fn enable_current_limit(&self, enable: bool) -> (r: Request)
        ensures
            r == (Request::EnableCurrentLimit { enable }),
    {
        Request::EnableCurrentLimit { enable }
    }

    /// Takes the forward limit switch from the feedback connector or from a
    /// remote device. A remote device is taken to have the device number 0;
    /// for another, use the method of all controllers, which takes a number.
    pub fn config_forward_limit_switch_source(
        &self,
        type_: LimitSwitchSource,
        normal_open_or_close: LimitSwitchNormal,
        timeout_ms: i32,
    ) -> (r: Request)
        ensures
            r == (Request::ConfigForwardLimitSwitchSource {
                type_,
                normal_open_or_close,
                device_id: 0,
                timeout_ms,
            }),
    {
        Request::ConfigForwardLimitSwitchSource {
            type_,
            normal_open_or_close,
            device_id: 0,
            timeout_ms,
        }
    }

    /// Takes the reverse limit switch from the feedback connector or from a
    /// remote device. A remote device is taken to have the device number 0;
    /// for another, use the method of all controllers, which takes a number.
    pub fn config_reverse_limit_switch_source(
        &self,
        type_: LimitSwitchSource,
        normal_open_or_close: LimitSwitchNormal,
        timeout_ms: i32,
    ) -> (r: Request)
        ensures
            r == (Request::ConfigReverseLimitSwitchSource {
                type_,
                normal_open_or_close,
                device_id: 0,
                timeout_ms,
            }),
    {
        Request::ConfigReverseLimitSwitchSource {
            type_,
            normal_open_or_close,
            device_id: 0,
            timeout_ms,
        }
    }

    /// Meant to set for how long the current may stay above the peak limit.
    ///
    /// Known discrepancy: what this sends is the request that sets the peak
    /// current limit, with the milliseconds in the place of the amperes. The
    /// device has a request of its own for the duration. Which of the two is
    /// intended has to be settled against the device protocol; until then the
    /// behaviour is kept as it is.
    pub fn config_peak_current_duration(&self, milliseconds: i32, timeout_ms: i32) -> (r: Request)
        ensures
            r == (Request::ConfigPeakCurrentLimit { amps: milliseconds, timeout_ms }),
    {
        Request::ConfigPeakCurrentLimit { amps: milliseconds, timeout_ms }
    }
}

} // verus!
